//! Hotkeys: modifier sets, keys, matching against live keyboard state, the derived 16-bit
//! identifier, and the registry of global accelerators.
use crate::platform::Platform;
use std::collections::hash_map::DefaultHasher;
use std::hash::Hasher;
use vstd::std_specs::hash::DefaultHasherAdditionalSpecFns;
use vstd::prelude::*;

verus! {

/// Bit of [`ModifiersState`] for the Shift key.
pub const SHIFT: u32 = 0x4;

/// Bit of [`ModifiersState`] for the Control key.
pub const CONTROL: u32 = 0x20;

/// Bit of [`ModifiersState`] for the Alt / Option key.
pub const ALT: u32 = 0x100;

/// Bit of [`ModifiersState`] for the Super / Command / Windows key.
pub const SUPER: u32 = 0x800;

/// The four modifier bits that hotkey matching looks at.
pub const TRACKED_MODIFIERS: u32 = 0x924;

/// A live modifier-key state, as a bit set. Bits other than the four tracked ones may be set
/// by a platform and are ignored by hotkey matching.
#[derive(Clone, Copy, Debug, PartialEq, Eq, Structural, Hash)]
pub struct ModifiersState {
    pub bits: u32,
}

impl ModifiersState {
    pub fn empty() -> (r: ModifiersState)
        ensures
            r.bits == 0,
    {
        ModifiersState { bits: 0 }
    }

    pub fn from_bits(bits: u32) -> (r: ModifiersState)
        ensures
            r.bits == bits,
    {
        ModifiersState { bits }
    }

    pub fn shift_key(&self) -> (r: bool)
        ensures
            r == (self.bits & SHIFT != 0),
    {
        self.bits & SHIFT != 0
    }

    pub fn control_key(&self) -> (r: bool)
        ensures
            r == (self.bits & CONTROL != 0),
    {
        self.bits & CONTROL != 0
    }

    pub fn alt_key(&self) -> (r: bool)
        ensures
            r == (self.bits & ALT != 0),
    {
        self.bits & ALT != 0
    }

    pub fn super_key(&self) -> (r: bool)
        ensures
            r == (self.bits & SUPER != 0),
    {
        self.bits & SUPER != 0
    }

    /// Sets or clears the bits of `flag`, leaving the others as they were.
    pub fn set(&mut self, flag: u32, value: bool)
        ensures
            final(self).bits == (if value {
                old(self).bits | flag
            } else {
                old(self).bits & !flag
            }),
    {
        if value {
            self.bits = self.bits | flag;
        } else {
            self.bits = self.bits & !flag;
        }
    }
}

/// The bits of a modifier combination given as four flags.
pub open spec fn flag_bits(alt: bool, ctrl: bool, meta: bool, shift: bool) -> u32 {
    (if alt {
        ALT
    } else {
        0u32
    }) | (if ctrl {
        CONTROL
    } else {
        0u32
    }) | (if meta {
        SUPER
    } else {
        0u32
    }) | (if shift {
        SHIFT
    } else {
        0u32
    })
}

/// A set of modifier keys, for describing hotkeys. Each of the sixteen subsets of
/// {Alt, Ctrl, Meta, Shift} has exactly one variant.
#[derive(Clone, Copy, Debug, PartialEq, Eq, Structural, Hash)]
pub enum RawMods {
    /// No modifier.
    Empty,
    Alt,
    Ctrl,
    Meta,
    Shift,
    AltCtrl,
    AltMeta,
    AltShift,
    CtrlShift,
    CtrlMeta,
    MetaShift,
    AltCtrlMeta,
    AltCtrlShift,
    AltMetaShift,
    CtrlMetaShift,
    AltCtrlMetaShift,
}

impl RawMods {
    /// The flags (alt, ctrl, meta, shift) that this set holds.
    pub open spec fn flags(self) -> (bool, bool, bool, bool) {
        match self {
            RawMods::Empty => (false, false, false, false),
            RawMods::Alt => (true, false, false, false),
            RawMods::Ctrl => (false, true, false, false),
            RawMods::Meta => (false, false, true, false),
            RawMods::Shift => (false, false, false, true),
            RawMods::AltCtrl => (true, true, false, false),
            RawMods::AltMeta => (true, false, true, false),
            RawMods::AltShift => (true, false, false, true),
            RawMods::CtrlMeta => (false, true, true, false),
            RawMods::CtrlShift => (false, true, false, true),
            RawMods::MetaShift => (false, false, true, true),
            RawMods::AltCtrlMeta => (true, true, true, false),
            RawMods::AltMetaShift => (true, false, true, true),
            RawMods::AltCtrlShift => (true, true, false, true),
            RawMods::CtrlMetaShift => (false, true, true, true),
            RawMods::AltCtrlMetaShift => (true, true, true, true),
        }
    }

    /// The [`ModifiersState`] bits of this set: Meta stands for the Super key.
    pub open spec fn spec_bits(self) -> u32 {
        let (alt, ctrl, meta, shift) = self.flags();
        flag_bits(alt, ctrl, meta, shift)
    }

    pub fn bits(self) -> (r: u32)
        ensures
            r == self.spec_bits(),
    {
        let state: ModifiersState = ModifiersState::from(self);
        state.bits
    }

    /// The one variant that holds exactly the given modifiers.
    pub fn from_flags(alt: bool, ctrl: bool, meta: bool, shift: bool) -> (r: RawMods)
        ensures
            r.flags() == (alt, ctrl, meta, shift),
    {
        match (alt, ctrl, meta, shift) {
            (false, false, false, false) => RawMods::Empty,
            (true, false, false, false) => RawMods::Alt,
            (false, true, false, false) => RawMods::Ctrl,
            (false, false, true, false) => RawMods::Meta,
            (false, false, false, true) => RawMods::Shift,
            (true, true, false, false) => RawMods::AltCtrl,
            (true, false, true, false) => RawMods::AltMeta,
            (true, false, false, true) => RawMods::AltShift,
            (false, true, true, false) => RawMods::CtrlMeta,
            (false, true, false, true) => RawMods::CtrlShift,
            (false, false, true, true) => RawMods::MetaShift,
            (true, true, true, false) => RawMods::AltCtrlMeta,
            (true, false, true, true) => RawMods::AltMetaShift,
            (true, true, false, true) => RawMods::AltCtrlShift,
            (false, true, true, true) => RawMods::CtrlMetaShift,
            (true, true, true, true) => RawMods::AltCtrlMetaShift,
        }
    }

    /// Whether a live modifier state holds exactly this set: no tracked modifier more or less,
    /// and no other bit.
    pub fn eq_state(&self, state: &ModifiersState) -> (r: bool)
        ensures
            r == (self.spec_bits() == state.bits),
    {
        self.bits() == state.bits
    }
}

impl From<RawMods> for ModifiersState {
    fn from(src: RawMods) -> (r: ModifiersState) {
        let (alt, ctrl, meta, shift) = match src {
            RawMods::Empty => (false, false, false, false),
            RawMods::Alt => (true, false, false, false),
            RawMods::Ctrl => (false, true, false, false),
            RawMods::Meta => (false, false, true, false),
            RawMods::Shift => (false, false, false, true),
            RawMods::AltCtrl => (true, true, false, false),
            RawMods::AltMeta => (true, false, true, false),
            RawMods::AltShift => (true, false, false, true),
            RawMods::CtrlMeta => (false, true, true, false),
            RawMods::CtrlShift => (false, true, false, true),
            RawMods::MetaShift => (false, false, true, true),
            RawMods::AltCtrlMeta => (true, true, true, false),
            RawMods::AltMetaShift => (true, false, true, true),
            RawMods::AltCtrlShift => (true, true, false, true),
            RawMods::CtrlMetaShift => (false, true, true, true),
            RawMods::AltCtrlMetaShift => (true, true, true, true),
        };
        ModifiersState { bits: build_flag_bits(alt, ctrl, meta, shift) }
    }
}

impl vstd::std_specs::convert::FromSpecImpl<RawMods> for ModifiersState {
    open spec fn obeys_from_spec() -> bool {
        true
    }

    open spec fn from_spec(v: RawMods) -> ModifiersState {
        ModifiersState { bits: v.spec_bits() }
    }
}

fn build_flag_bits(alt: bool, ctrl: bool, meta: bool, shift: bool) -> (r: u32)
    ensures
        r == flag_bits(alt, ctrl, meta, shift),
{
    (if alt {
        ALT
    } else {
        0u32
    }) | (if ctrl {
        CONTROL
    } else {
        0u32
    }) | (if meta {
        SUPER
    } else {
        0u32
    }) | (if shift {
        SHIFT
    } else {
        0u32
    })
}

/// A platform-independent way to name shortcut modifiers: `Cmd` is Command on macOS and Ctrl
/// on the other platforms.
#[derive(Clone, Copy, Debug, PartialEq, Eq, Structural, Hash)]
pub enum SysMods {
    /// No modifier.
    Empty,
    Shift,
    /// Command on macOS, and Ctrl on windows/linux
    Cmd,
    /// Command + Alt on macOS, Ctrl + Alt on windows/linux
    AltCmd,
    /// Command + Shift on macOS, Ctrl + Shift on windows/linux
    CmdShift,
    /// Command + Alt + Shift on macOS, Ctrl + Alt + Shift on windows/linux
    AltCmdShift,
}

impl SysMods {
    /// The concrete modifier set on `platform`.
    pub open spec fn spec_to_raw_mods(self, platform: Platform) -> RawMods {
        if platform == Platform::MacOs {
            match self {
                SysMods::Empty => RawMods::Empty,
                SysMods::Shift => RawMods::Shift,
                SysMods::Cmd => RawMods::Meta,
                SysMods::AltCmd => RawMods::AltMeta,
                SysMods::CmdShift => RawMods::MetaShift,
                SysMods::AltCmdShift => RawMods::AltMetaShift,
            }
        } else {
            match self {
                SysMods::Empty => RawMods::Empty,
                SysMods::Shift => RawMods::Shift,
                SysMods::Cmd => RawMods::Ctrl,
                SysMods::AltCmd => RawMods::AltCtrl,
                SysMods::CmdShift => RawMods::CtrlShift,
                SysMods::AltCmdShift => RawMods::AltCtrlShift,
            }
        }
    }

    /// Resolves the primary modifier once, for `platform`.
    pub fn to_raw_mods(self, platform: Platform) -> (r: RawMods)
        ensures
            r == self.spec_to_raw_mods(platform),
    {
        match platform {
            Platform::MacOs => match self {
                SysMods::Empty => RawMods::Empty,
                SysMods::Shift => RawMods::Shift,
                SysMods::Cmd => RawMods::Meta,
                SysMods::AltCmd => RawMods::AltMeta,
                SysMods::CmdShift => RawMods::MetaShift,
                SysMods::AltCmdShift => RawMods::AltMetaShift,
            },
            _ => match self {
                SysMods::Empty => RawMods::Empty,
                SysMods::Shift => RawMods::Shift,
                SysMods::Cmd => RawMods::Ctrl,
                SysMods::AltCmd => RawMods::AltCtrl,
                SysMods::CmdShift => RawMods::CtrlShift,
                SysMods::AltCmdShift => RawMods::AltCtrlShift,
            },
        }
    }

    /// Whether a live modifier state holds exactly what this set resolves to on `platform`.
    pub fn eq_state(&self, state: &ModifiersState, platform: Platform) -> (r: bool)
        ensures
            r == (self.spec_to_raw_mods(platform).spec_bits() == state.bits),
    {
        self.to_raw_mods(platform).eq_state(state)
    }
}

/// A key, as a hotkey names it.
#[derive(Clone, Copy, Debug, PartialEq, Eq, Structural, Hash)]
pub enum Key {
    /// A key that produces this character.
    Character(char),
    /// The function key F1, F2, ... of this number.
    Function(u8),
    Enter,
    Tab,
    Space,
    Backspace,
    Escape,
    Delete,
    Insert,
    Home,
    End,
    PageUp,
    PageDown,
    ArrowUp,
    ArrowDown,
    ArrowLeft,
    ArrowRight,
}

impl Key {
    /// A tag for the key's variant and a payload for its data.
    pub open spec fn code(self) -> (u8, u32) {
        match self {
            Key::Character(c) => (0, c as u32),
            Key::Function(n) => (1, n as u32),
            Key::Enter => (2, 0),
            Key::Tab => (3, 0),
            Key::Space => (4, 0),
            Key::Backspace => (5, 0),
            Key::Escape => (6, 0),
            Key::Delete => (7, 0),
            Key::Insert => (8, 0),
            Key::Home => (9, 0),
            Key::End => (10, 0),
            Key::PageUp => (11, 0),
            Key::PageDown => (12, 0),
            Key::ArrowUp => (13, 0),
            Key::ArrowDown => (14, 0),
            Key::ArrowLeft => (15, 0),
            Key::ArrowRight => (16, 0),
        }
    }

    fn exec_code(self) -> (r: (u8, u32))
        ensures
            r == self.code(),
    {
        match self {
            Key::Character(c) => (0, c as u32),
            Key::Function(n) => (1, n as u32),
            Key::Enter => (2, 0),
            Key::Tab => (3, 0),
            Key::Space => (4, 0),
            Key::Backspace => (5, 0),
            Key::Escape => (6, 0),
            Key::Delete => (7, 0),
            Key::Insert => (8, 0),
            Key::Home => (9, 0),
            Key::End => (10, 0),
            Key::PageUp => (11, 0),
            Key::PageDown => (12, 0),
            Key::ArrowUp => (13, 0),
            Key::ArrowDown => (14, 0),
            Key::ArrowLeft => (15, 0),
            Key::ArrowRight => (16, 0),
        }
    }
}

/// A modifier set and a key. Two hotkeys are the same when both parts are.
#[derive(Clone, Copy, Debug, PartialEq, Eq, Structural, Hash)]
pub struct HotKey {
    pub mods: RawMods,
    pub key: Key,
}

/// The bytes a hotkey's identifier is hashed from: the modifier bits in two bytes, the key's
/// tag, then the key's payload in four bytes, least significant first.
pub open spec fn hotkey_bytes(hotkey: HotKey) -> Seq<u8> {
    let bits = hotkey.mods.spec_bits();
    let (tag, payload) = hotkey.key.code();
    seq![
        bits as u8,
        (bits >> 8u32) as u8,
        tag,
        payload as u8,
        (payload >> 8u32) as u8,
        (payload >> 16u32) as u8,
        (payload >> 24u32) as u8,
    ]
}

/// The 16-bit identifier of a hotkey: the low half of the standard library's default hash of
/// [`hotkey_bytes`]. Distinct hotkeys may share an identifier.
pub open spec fn hotkey_id(hotkey: HotKey) -> u16 {
    DefaultHasher::spec_finish(seq![hotkey_bytes(hotkey)]) as u16
}

/// Whether `hotkey` is what a key press with these live modifiers and this key means: the
/// tracked modifier bits equal the hotkey's set and the keys are the same.
pub open spec fn spec_matches(hotkey: HotKey, modifiers: ModifiersState, key: Key) -> bool {
    hotkey.mods.spec_bits() == modifiers.bits & TRACKED_MODIFIERS && hotkey.key == key
}

impl HotKey {
    /// A hotkey of `key` with the modifiers `mods`, or with none.
    pub fn new(mods: Option<RawMods>, key: Key) -> (r: HotKey)
        ensures
            r.mods == (match mods {
                Some(m) => m,
                None => RawMods::Empty,
            }),
            r.key == key,
    {
        let mods = match mods {
            Some(m) => m,
            None => RawMods::Empty,
        };
        HotKey { mods, key }
    }

    /// The bytes [`HotKey::id`] hashes.
    pub fn hash_input(&self) -> (r: Vec<u8>)
        ensures
            r@ == hotkey_bytes(*self),
    {
        let bits = self.mods.bits();
        let (tag, payload) = self.key.exec_code();
        let r = vec![
            bits as u8,
            (bits >> 8u32) as u8,
            tag,
            payload as u8,
            (payload >> 8u32) as u8,
            (payload >> 16u32) as u8,
            (payload >> 24u32) as u8,
        ];
        assert(r@ =~= hotkey_bytes(*self));
        r
    }

    /// The 16-bit identifier of this hotkey. It is deterministic but not collision-free.
    pub fn id(self) -> (r: u16)
        ensures
            r == hotkey_id(self),
    {
        hash_hotkey_to_u16(self)
    }

    /// Returns `true` if a key press of `key` with the live `modifiers` means this hotkey.
    /// Only the Shift, Control, Alt and Super bits of `modifiers` are compared.
    pub fn matches(&self, modifiers: ModifiersState, key: Key) -> (r: bool)
        ensures
            r == spec_matches(*self, modifiers, key),
    {
        let masked = ModifiersState { bits: modifiers.bits & TRACKED_MODIFIERS };
        self.mods.eq_state(&masked) && self.key == key
    }
}

fn hash_hotkey_to_u16(hotkey: HotKey) -> (r: u16)
    ensures
        r == hotkey_id(hotkey),
{
    let bytes = hotkey.hash_input();
    let mut s = DefaultHasher::new();
    s.write(bytes.as_slice());
    assert(s@ =~= seq![hotkey_bytes(hotkey)]);
    s.finish() as u16
}

/// Extra modifier bits outside the four tracked ones never change whether a hotkey matches.
pub proof fn lemma_untracked_modifiers_ignored(hotkey: HotKey, bits: u32, extra: u32, key: Key)
    requires
        extra & TRACKED_MODIFIERS == 0,
    ensures
        spec_matches(hotkey, ModifiersState { bits: bits | extra }, key) == spec_matches(
            hotkey,
            ModifiersState { bits },
            key,
        ),
{
    assert((bits | extra) & 0x924u32 == bits & 0x924u32) by (bit_vector)
        requires
            extra & 0x924u32 == 0,
    ;
}

/// Each modifier set has bits of its own: two sets with the same bits are the same set.
pub proof fn lemma_raw_mods_bits_unique(a: RawMods, b: RawMods)
    requires
        a.spec_bits() == b.spec_bits(),
    ensures
        a == b,
{
    lemma_flag_bits_injective(a.flags(), b.flags());
}

proof fn lemma_flag_bits_injective(f: (bool, bool, bool, bool), g: (bool, bool, bool, bool))
    requires
        flag_bits(f.0, f.1, f.2, f.3) == flag_bits(g.0, g.1, g.2, g.3),
    ensures
        f == g,
{
    let fa: u32 = if f.0 { ALT } else { 0 };
    let fc: u32 = if f.1 { CONTROL } else { 0 };
    let fm: u32 = if f.2 { SUPER } else { 0 };
    let fs: u32 = if f.3 { SHIFT } else { 0 };
    let ga: u32 = if g.0 { ALT } else { 0 };
    let gc: u32 = if g.1 { CONTROL } else { 0 };
    let gm: u32 = if g.2 { SUPER } else { 0 };
    let gs: u32 = if g.3 { SHIFT } else { 0 };
    assert(fa == ga && fc == gc && fm == gm && fs == gs) by (bit_vector)
        requires
            fa == 0 || fa == 0x100,
            fc == 0 || fc == 0x20,
            fm == 0 || fm == 0x800,
            fs == 0 || fs == 0x4,
            ga == 0 || ga == 0x100,
            gc == 0 || gc == 0x20,
            gm == 0 || gm == 0x800,
            gs == 0 || gs == 0x4,
            fa | fc | fm | fs == ga | gc | gm | gs,
    ;
}

/// A hotkey bound, or to be bound, as a global accelerator of the operating system, with the
/// identifier the operating system knows it by.
#[derive(Clone, Copy, Debug, PartialEq, Eq, Structural)]
pub struct GlobalAccelerator {
    hotkey: HotKey,
    id: u16,
}

impl GlobalAccelerator {
    pub closed spec fn spec_hotkey(self) -> HotKey {
        self.hotkey
    }

    pub closed spec fn spec_id(self) -> u16 {
        self.id
    }

    pub fn new(hotkey: HotKey) -> (r: GlobalAccelerator)
        ensures
            r.spec_hotkey() == hotkey,
            r.spec_id() == hotkey_id(hotkey),
    {
        GlobalAccelerator { hotkey, id: hotkey.id() }
    }

    pub fn hotkey(&self) -> (r: HotKey)
        ensures
            r == self.spec_hotkey(),
    {
        self.hotkey
    }

    pub fn id(&self) -> (r: u16)
        ensures
            r == self.spec_id(),
    {
        self.id
    }
}

/// Why the hotkey registry refused a request.
#[derive(Clone, Debug)]
pub enum HotKeyManagerError {
    /// An equal hotkey is registered already.
    HotKeyAlreadyRegistered(HotKey),
    /// No equal hotkey is registered.
    HotKeyNotRegistered(HotKey),
    /// The operating system refused the hotkey, for the reason given.
    InvalidHotKey(String),
}

/// The registry after a registration of `hotkey`, and whether it succeeded: it fails, leaving
/// the registry as it was, exactly when an equal hotkey is registered.
pub open spec fn register_outcome(registered: Seq<HotKey>, hotkey: HotKey) -> (Seq<HotKey>, bool) {
    if registered.contains(hotkey) {
        (registered, false)
    } else {
        (registered.push(hotkey), true)
    }
}

/// The set of registered global hotkeys. It is the one source of truth for duplicate
/// detection, which goes by structural equality of hotkeys and never by their identifiers.
/// Registered hotkeys are kept in registration order; those before the bound count have been
/// handed to the operating system by [`HotKeyManager::run`].
#[derive(Clone, Debug)]
pub struct HotKeyManager {
    registered_hotkeys: Vec<GlobalAccelerator>,
    bound: usize,
}

impl View for HotKeyManager {
    type V = Seq<HotKey>;

    /// The registered hotkeys, in registration order.
    closed spec fn view(&self) -> Seq<HotKey> {
        self.registered_hotkeys@.map_values(|a: GlobalAccelerator| a.hotkey)
    }
}

impl HotKeyManager {
    /// The registry's invariant: no hotkey twice, the bound count within range, and each
    /// accelerator's identifier derived from its hotkey.
    pub closed spec fn wf(&self) -> bool {
        &&& self.bound <= self.registered_hotkeys.len()
        &&& self@.no_duplicates()
        &&& forall|i: int|
            0 <= i < self.registered_hotkeys.len() ==> #[trigger] self.registered_hotkeys@[i].id
                == hotkey_id(self.registered_hotkeys@[i].hotkey)
    }

    /// How many of the registered hotkeys, from the first, have been handed to the operating
    /// system.
    pub closed spec fn bound_count(&self) -> nat {
        self.bound as nat
    }

    pub fn new() -> (r: HotKeyManager)
        ensures
            r.wf(),
            r@ == Seq::<HotKey>::empty(),
            r.bound_count() == 0,
    {
        let r = HotKeyManager { registered_hotkeys: Vec::new(), bound: 0 };
        assert(r@ =~= Seq::<HotKey>::empty());
        r
    }

    fn position(&self, hotkey: &HotKey) -> (r: Option<usize>)
        ensures
            match r {
                Some(i) => i < self@.len() && self@[i as int] == *hotkey,
                None => !self@.contains(*hotkey),
            },
    {
        let mut i: usize = 0;
        while i < self.registered_hotkeys.len()
            invariant
                i <= self.registered_hotkeys.len(),
                self@.len() == self.registered_hotkeys.len(),
                forall|j: int| 0 <= j < i ==> self@[j] != *hotkey,
            decreases self.registered_hotkeys.len() - i,
        {
            if self.registered_hotkeys[i].hotkey == *hotkey {
                return Some(i);
            }
            i = i + 1;
        }
        None
    }

    /// Whether a hotkey equal to `hotkey` is registered.
    pub fn is_registered(&self, hotkey: &HotKey) -> (r: bool)
        ensures
            r == self@.contains(*hotkey),
    {
        self.position(hotkey).is_some()
    }

    /// Whether `hotkey` is registered and has been handed to the operating system.
    pub fn is_bound(&self, hotkey: &HotKey) -> (r: bool)
        requires
            self.wf(),
        ensures
            r == exists|i: int| 0 <= i < self.bound_count() && self@[i] == *hotkey,
    {
        match self.position(hotkey) {
            Some(i) => {
                proof {
                    if !(i < self.bound) {
                        assert forall|k: int| 0 <= k < self.bound_count() implies self@[k]
                            != *hotkey by {
                            assert(self@[k] != self@[i as int]);
                        }
                    }
                }
                i < self.bound
            },
            None => false,
        }
    }

    /// Registers `hotkey`. Fails with `HotKeyAlreadyRegistered`, changing nothing, when an equal
    /// hotkey is registered already; otherwise appends it and returns its accelerator, which
    /// the next [`HotKeyManager::run`] hands to the operating system.
    pub fn register(&mut self, hotkey: HotKey) -> (r: Result<GlobalAccelerator, HotKeyManagerError>)
        requires
            old(self).wf(),
        ensures
            final(self).wf(),
            (final(self)@, r is Ok) == register_outcome(old(self)@, hotkey),
            final(self).bound_count() == old(self).bound_count(),
            old(self)@.contains(hotkey) ==> r == Err::<GlobalAccelerator, HotKeyManagerError>(
                HotKeyManagerError::HotKeyAlreadyRegistered(hotkey),
            ),
            r matches Ok(a) ==> a.spec_hotkey() == hotkey && a.spec_id() == hotkey_id(hotkey),
    {
        if self.is_registered(&hotkey) {
            return Err(HotKeyManagerError::HotKeyAlreadyRegistered(hotkey));
        }
        let accelerator = GlobalAccelerator::new(hotkey);
        self.registered_hotkeys.push(accelerator);
        assert(self@ =~= old(self)@.push(hotkey));
        assert forall|i: int, j: int|
            0 <= i < self@.len() && 0 <= j < self@.len() && i != j implies self@[i] != self@[j] by {
            if i < old(self)@.len() && j < old(self)@.len() {
                assert(old(self)@[i] != old(self)@[j]);
            } else if i < old(self)@.len() {
                assert(old(self)@.contains(old(self)@[i]));
            } else {
                assert(old(self)@.contains(old(self)@[j]));
            }
        }
        Ok(accelerator)
    }

    /// Removes `hotkey`. Fails with `HotKeyNotRegistered`, changing nothing, when no equal
    /// hotkey is registered; otherwise returns its accelerator, which the caller unbinds from
    /// the operating system if [`HotKeyManager::is_bound`] said it was bound.
    pub fn unregister(&mut self, hotkey: &HotKey) -> (r: Result<GlobalAccelerator, HotKeyManagerError>)
        requires
            old(self).wf(),
        ensures
            final(self).wf(),
            !old(self)@.contains(*hotkey) ==> r == Err::<GlobalAccelerator, HotKeyManagerError>(
                HotKeyManagerError::HotKeyNotRegistered(*hotkey),
            ) && final(self)@ == old(self)@ && final(self).bound_count()
                == old(self).bound_count(),
            old(self)@.contains(*hotkey) ==> {
                &&& r matches Ok(a)
                &&& a.spec_hotkey() == *hotkey
                &&& a.spec_id() == hotkey_id(*hotkey)
                &&& final(self)@ == old(self)@.remove(old(self)@.index_of(*hotkey))
            },
    {
        match self.position(hotkey) {
            None => Err(HotKeyManagerError::HotKeyNotRegistered(*hotkey)),
            Some(i) => {
                proof {
                    assert forall|k: int| 0 <= k < old(self)@.len() && k != i implies old(self)@[k]
                        != *hotkey by {
                        assert(old(self)@[k] != old(self)@[i as int]);
                    }
                    old(self)@.index_of_first_ensures(*hotkey);
                    assert(old(self)@.index_of(*hotkey) == i);
                }
                let accelerator = self.registered_hotkeys.remove(i);
                if i < self.bound {
                    self.bound = self.bound - 1;
                }
                assert(self@ =~= old(self)@.remove(i as int));
                assert forall|a: int, b: int|
                    0 <= a < self@.len() && 0 <= b < self@.len() && a != b implies self@[a]
                    != self@[b] by {
                    let oa = if a < i { a } else { a + 1 };
                    let ob = if b < i { b } else { b + 1 };
                    assert(self@[a] == old(self)@[oa]);
                    assert(self@[b] == old(self)@[ob]);
                }
                assert forall|k: int| 0 <= k < self.registered_hotkeys.len() implies #[trigger] self.registered_hotkeys@[k].id
                    == hotkey_id(self.registered_hotkeys@[k].hotkey) by {
                    let ok = if k < i { k } else { k + 1 };
                    assert(self.registered_hotkeys@[k] == old(self).registered_hotkeys@[ok]);
                }
                Ok(accelerator)
            },
        }
    }

    /// Hands every registered hotkey that has not been handed to the operating system yet over
    /// for binding, in registration order, and counts them as bound from now on. A platform can
    /// bind global accelerators only once its event loop exists, so registrations wait here
    /// until then.
    pub fn run(&mut self) -> (r: Vec<GlobalAccelerator>)
        requires
            old(self).wf(),
        ensures
            final(self).wf(),
            final(self)@ == old(self)@,
            final(self).bound_count() == old(self)@.len(),
            r@.map_values(|a: GlobalAccelerator| a.spec_hotkey()) == old(self)@.subrange(
                old(self).bound_count() as int,
                old(self)@.len() as int,
            ),
            forall|k: int| 0 <= k < r@.len() ==> #[trigger] r@[k].spec_id() == hotkey_id(
                r@[k].spec_hotkey(),
            ),
    {
        let mut pending: Vec<GlobalAccelerator> = Vec::new();
        let mut i: usize = self.bound;
        while i < self.registered_hotkeys.len()
            invariant
                self.bound <= i <= self.registered_hotkeys.len(),
                pending@.len() == i - self.bound,
                forall|k: int|
                    0 <= k < pending@.len() ==> #[trigger] pending@[k] == self.registered_hotkeys@[self.bound + k],
            decreases self.registered_hotkeys.len() - i,
        {
            pending.push(self.registered_hotkeys[i]);
            i = i + 1;
        }
        self.bound = self.registered_hotkeys.len();
        assert(pending@.map_values(|a: GlobalAccelerator| a.spec_hotkey()) =~= old(self)@.subrange(
            old(self).bound_count() as int,
            old(self)@.len() as int,
        ));
        pending
    }
}

impl Default for HotKeyManager {
    fn default() -> (r: HotKeyManager)
        ensures
            r.wf(),
            r@ == Seq::<HotKey>::empty(),
            r.bound_count() == 0,
    {
        HotKeyManager::new()
    }
}

/// Registering a hotkey that was just registered fails and leaves the registry as it was, so its
/// size is unchanged.
pub proof fn lemma_duplicate_registration(registered: Seq<HotKey>, hotkey: HotKey)
    ensures
        ({
            let (after_first, _) = register_outcome(registered, hotkey);
            let (after_second, second_ok) = register_outcome(after_first, hotkey);
            &&& !second_ok
            &&& after_second == after_first
            &&& after_second.len() == after_first.len()
        }),
{
    let (after_first, _) = register_outcome(registered, hotkey);
    if !registered.contains(hotkey) {
        assert(after_first[after_first.len() - 1] == hotkey);
    }
    assert(after_first.contains(hotkey));
}

} // verus!
