//! A minimal input-method handler for Win32: once an IME composition ends, the characters that
//! follow as `WM_CHAR` / `WM_SYSCHAR` messages are collected as UTF-16 units and delivered as
//! one decoded string when no further character message is queued.
use vstd::prelude::*;

verus! {

pub const WM_CHAR: u32 = 0x0102;

pub const WM_SYSCHAR: u32 = 0x0106;

pub const WM_IME_STARTCOMPOSITION: u32 = 0x010D;

pub const WM_IME_ENDCOMPOSITION: u32 = 0x010E;

pub const WM_IME_COMPOSITION: u32 = 0x010F;

pub const WM_IME_COMPOSITIONFULL: u32 = 0x0284;

pub const WM_IME_CHAR: u32 = 0x0286;

pub open spec fn is_char_message(msg_kind: u32) -> bool {
    msg_kind == WM_CHAR || msg_kind == WM_SYSCHAR
}

/// Whether a window message belongs to input-method handling.
pub fn is_msg_ime_related(msg_kind: u32) -> (r: bool)
    ensures
        r == (msg_kind == WM_IME_COMPOSITION || msg_kind == WM_IME_COMPOSITIONFULL || msg_kind
            == WM_IME_STARTCOMPOSITION || msg_kind == WM_IME_ENDCOMPOSITION || msg_kind
            == WM_IME_CHAR || msg_kind == WM_CHAR || msg_kind == WM_SYSCHAR),
{
    msg_kind == WM_IME_COMPOSITION || msg_kind == WM_IME_COMPOSITIONFULL || msg_kind
        == WM_IME_STARTCOMPOSITION || msg_kind == WM_IME_ENDCOMPOSITION || msg_kind == WM_IME_CHAR
        || msg_kind == WM_CHAR || msg_kind == WM_SYSCHAR
}

/// The characters that well-formed UTF-16 `units` encode, or `None` where a surrogate is
/// unpaired.
pub open spec fn utf16_decode(units: Seq<u16>) -> Option<Seq<char>>
    decreases units.len(),
{
    if units.len() == 0 {
        Some(Seq::empty())
    } else {
        let u = units[0] as int;
        if u < 0xD800 || u > 0xDFFF {
            match utf16_decode(units.drop_first()) {
                Some(rest) => Some(seq![u as char] + rest),
                None => None,
            }
        } else if u <= 0xDBFF && units.len() >= 2 && 0xDC00 <= units[1] <= 0xDFFF {
            let c = 0x10000 + (u - 0xD800) * 0x400 + (units[1] as int - 0xDC00);
            match utf16_decode(units.subrange(2, units.len() as int)) {
                Some(rest) => Some(seq![c as char] + rest),
                None => None,
            }
        } else {
            None
        }
    }
}

/// Relies on `String::from_utf16`, which decodes well-formed UTF-16 and fails on unpaired
/// surrogates.
#[verifier::external_body]
fn decode_utf16(units: &[u16]) -> (r: Option<String>)
    ensures
        match r {
            Some(s) => utf16_decode(units@) == Some(s@),
            None => utf16_decode(units@) is None,
        },
{
    String::from_utf16(units).ok()
}

/// What one window message did to the input-method state.
#[derive(Clone, Debug, PartialEq, Eq)]
pub struct ImeOutput {
    /// The message was consumed; the window procedure returns 0 for it.
    pub handled: bool,
    /// Text completed by this message, if any.
    pub text: Option<String>,
}

/// The state of the handler: whether characters of a finished composition are arriving, and
/// the UTF-16 units collected so far.
#[derive(Clone, Debug)]
pub struct MinimalIme {
    getting_ime_text: bool,
    utf16parts: Vec<u16>,
}

impl MinimalIme {
    pub closed spec fn spec_collecting(&self) -> bool {
        self.getting_ime_text
    }

    pub closed spec fn spec_parts(&self) -> Seq<u16> {
        self.utf16parts@
    }

    pub fn new() -> (r: MinimalIme)
        ensures
            !r.spec_collecting(),
            r.spec_parts().len() == 0,
    {
        MinimalIme { getting_ime_text: false, utf16parts: Vec::new() }
    }

    pub fn is_collecting(&self) -> (r: bool)
        ensures
            r == self.spec_collecting(),
    {
        self.getting_ime_text
    }

    /// Handles the message `msg_kind` with its `wparam`. `next_message` is the kind of the next
    /// keyboard message in the queue, if there is one. When a composition has just ended,
    /// each character message is consumed and collected; the text is delivered, and the state
    /// reset, when the next queued message is not a character message.
    pub fn process_message(&mut self, msg_kind: u32, wparam: usize, next_message: Option<u32>) -> (r:
        ImeOutput)
        ensures
            msg_kind == WM_IME_ENDCOMPOSITION ==> {
                &&& final(self).spec_collecting()
                &&& final(self).spec_parts() == old(self).spec_parts()
                &&& !r.handled
                &&& r.text is None
            },
            (is_char_message(msg_kind) && old(self).spec_collecting()) ==> {
                let parts = old(self).spec_parts().push(wparam as u16);
                let more = next_message matches Some(m) && is_char_message(m);
                &&& r.handled
                &&& more ==> final(self).spec_collecting() && final(self).spec_parts() == parts
                    && r.text is None
                &&& !more ==> !final(self).spec_collecting() && final(self).spec_parts().len() == 0
                    && match r.text {
                    Some(t) => utf16_decode(parts) == Some(t@),
                    None => utf16_decode(parts) is None,
                }
            },
            (msg_kind != WM_IME_ENDCOMPOSITION && !(is_char_message(msg_kind)
                && old(self).spec_collecting())) ==> {
                &&& final(self).spec_collecting() == old(self).spec_collecting()
                &&& final(self).spec_parts() == old(self).spec_parts()
                &&& !r.handled
                &&& r.text is None
            },
    {
        if msg_kind == WM_IME_ENDCOMPOSITION {
            self.getting_ime_text = true;
            return ImeOutput { handled: false, text: None };
        }
        if (msg_kind == WM_CHAR || msg_kind == WM_SYSCHAR) && self.getting_ime_text {
            self.utf16parts.push(wparam as u16);
            let more_char_coming = match next_message {
                Some(m) => m == WM_CHAR || m == WM_SYSCHAR,
                None => false,
            };
            if !more_char_coming {
                let text = decode_utf16(self.utf16parts.as_slice());
                self.utf16parts.clear();
                self.getting_ime_text = false;
                return ImeOutput { handled: true, text };
            }
            return ImeOutput { handled: true, text: None };
        }
        ImeOutput { handled: false, text: None }
    }
}

impl Default for MinimalIme {
    fn default() -> (r: MinimalIme)
        ensures
            !r.spec_collecting(),
            r.spec_parts().len() == 0,
    {
        MinimalIme::new()
    }
}

} // verus!
