//! The app event dispatcher's own decisions: classifying key presses and
//! normalizing pasted text.

use vstd::prelude::*;
use vstd::string::StrSliceExecFns;
use vstd::string::StringExecFns;

verus! {

/// A key code, reduced to what the dispatcher distinguishes.
#[derive(Clone, Copy, Debug, PartialEq, Eq, Structural)]
pub enum KeyCodeModel {
    Char(char),
    Other,
}

/// Whether a key event is a press, a repeat or a release.
#[derive(Clone, Copy, Debug, PartialEq, Eq, Structural)]
pub enum KeyPhase {
    Press,
    Repeat,
    Release,
}

/// A key event as the dispatcher reads it.
#[derive(Clone, Copy, Debug, PartialEq, Eq, Structural)]
pub struct KeyPress {
    pub code: KeyCodeModel,
    pub ctrl: bool,
    pub phase: KeyPhase,
}

/// Where a key event goes.
#[derive(Clone, Copy, Debug, PartialEq, Eq, Structural)]
pub enum KeyRoute {
    /// Ctrl-C: interrupt the active task (or exit during onboarding).
    Interrupt,
    /// Ctrl-Z: job-control suspend, where the platform supports it.
    Suspend,
    /// Ctrl-D: exit when the composer is empty, else an ordinary key.
    EndOfInput,
    /// Any other press or repeat: hand it to the active view.
    Forward,
    /// Releases are ignored.
    Ignore,
}

/// The dispatcher's key table: Ctrl-C, Ctrl-Z and Ctrl-D presses are
/// special; other presses and repeats are forwarded; releases are ignored.
pub open spec fn spec_classify_key(k: KeyPress) -> KeyRoute {
    if k.ctrl && k.code == KeyCodeModel::Char('c') && k.phase == KeyPhase::Press {
        KeyRoute::Interrupt
    } else if k.ctrl && k.code == KeyCodeModel::Char('z') && k.phase == KeyPhase::Press {
        KeyRoute::Suspend
    } else if k.ctrl && k.code == KeyCodeModel::Char('d') && k.phase == KeyPhase::Press {
        KeyRoute::EndOfInput
    } else if k.phase == KeyPhase::Press || k.phase == KeyPhase::Repeat {
        KeyRoute::Forward
    } else {
        KeyRoute::Ignore
    }
}

pub fn classify_key(k: &KeyPress) -> (r: KeyRoute)
    ensures
        r == spec_classify_key(*k),
{
    if k.ctrl && k.code == KeyCodeModel::Char('c') && matches!(k.phase, KeyPhase::Press) {
        KeyRoute::Interrupt
    } else if k.ctrl && k.code == KeyCodeModel::Char('z') && matches!(k.phase, KeyPhase::Press) {
        KeyRoute::Suspend
    } else if k.ctrl && k.code == KeyCodeModel::Char('d') && matches!(k.phase, KeyPhase::Press) {
        KeyRoute::EndOfInput
    } else if matches!(k.phase, KeyPhase::Press) || matches!(k.phase, KeyPhase::Repeat) {
        KeyRoute::Forward
    } else {
        KeyRoute::Ignore
    }
}

/// Pasted text with carriage returns normalized to line feeds, as the
/// composer expects.
pub fn normalize_pasted(s: &str) -> (r: String)
    ensures
        r@ == s@.map_values(|c: char| if c == '\r' {
            '\n'
        } else {
            c
        }),
{
    let n: usize = s.unicode_len();
    let mut out = String::new();
    let mut i: usize = 0;
    let ghost f = |c: char| if c == '\r' {
        '\n'
    } else {
        c
    };
    proof {
        assert(out@ =~= s@.take(0).map_values(f));
    }
    while i < n
        invariant
            i <= n,
            n == s@.len(),
            out@ == s@.take(i as int).map_values(
                |c: char| if c == '\r' {
                    '\n'
                } else {
                    c
                },
            ),
        decreases n - i,
    {
        let c = s.get_char(i);
        if c == '\r' {
            out.append("\n");
        } else {
            let piece = s.substring_char(i, i + 1);
            out.append(piece);
        }
        proof {
            reveal_strlit("\n");
            let g = |c: char| if c == '\r' {
                '\n'
            } else {
                c
            };
            assert(s@.subrange(i as int, i as int + 1) =~= seq![s@[i as int]]);
            assert(out@ =~= s@.take(i as int + 1).map_values(g));
        }
        i = i + 1;
    }
    proof {
        assert(s@.take(n as int) =~= s@);
    }
    out
}

} // verus!
