//! Setting up a vault's master password: the strength rating shown while
//! it is typed, and the checks made when the vault is created.

use vstd::prelude::*;
use crate::text::{chars_of, dec, opt_str_view, push_decimal, str_eq, to_owned_string};

verus! {

pub open spec fn is_ascii_lower(c: char) -> bool {
    'a' <= c && c <= 'z'
}

pub open spec fn is_ascii_upper(c: char) -> bool {
    'A' <= c && c <= 'Z'
}

pub open spec fn is_ascii_digit(c: char) -> bool {
    '0' <= c && c <= '9'
}

pub open spec fn is_ascii_alnum(c: char) -> bool {
    is_ascii_lower(c) || is_ascii_upper(c) || is_ascii_digit(c)
}

/// Some character of `p` satisfies `f`.
pub open spec fn any_char(p: Seq<char>, f: spec_fn(char) -> bool) -> bool {
    exists|i: int| 0 <= i < p.len() && f(#[trigger] p[i])
}

/// How many of the four classes (lowercase, uppercase, digit, other) occur
/// in `p`.
pub open spec fn class_count(p: Seq<char>) -> nat {
    (if any_char(p, |c: char| is_ascii_lower(c)) { 1nat } else { 0nat })
        + (if any_char(p, |c: char| is_ascii_upper(c)) { 1nat } else { 0nat })
        + (if any_char(p, |c: char| is_ascii_digit(c)) { 1nat } else { 0nat })
        + (if any_char(p, |c: char| !is_ascii_alnum(c)) { 1nat } else { 0nat })
}

/// Strength as a rank: 0 for an empty password, 1 weak (under 8
/// characters, or at most two classes), 2 medium (three classes), 3 strong
/// (all four).
pub open spec fn strength_rank(p: Seq<char>) -> nat {
    if p.len() == 0 {
        0
    } else if p.len() < 8 || class_count(p) <= 2 {
        1
    } else if class_count(p) == 3 {
        2
    } else {
        3
    }
}

/// The (label, CSS class) shown for a rank.
pub open spec fn strength_text(rank: nat) -> (Seq<char>, Seq<char>) {
    if rank == 0 {
        (Seq::empty(), Seq::empty())
    } else if rank == 1 {
        ("Weak"@, "weak"@)
    } else if rank == 2 {
        ("Medium"@, "medium"@)
    } else {
        ("Strong"@, "strong"@)
    }
}

/// Rates `password`: empty gives ("", ""); under 8 characters or at most
/// two character classes is weak; three classes medium; four strong.
pub fn strength_of(password: &str) -> (res: (String, &'static str))
    ensures
        (res.0@, res.1@) == strength_text(strength_rank(password@)),
{
    let cs = chars_of(password);
    if cs.len() == 0 {
        proof {
            reveal_strlit("");
        }
        return (String::new(), "");
    }
    let mut lower = false;
    let mut upper = false;
    let mut digit = false;
    let mut other = false;
    let mut i: usize = 0;
    while i < cs.len()
        invariant
            cs@ == password@,
            i <= cs@.len(),
            lower == any_char(cs@.take(i as int), |c: char| is_ascii_lower(c)),
            upper == any_char(cs@.take(i as int), |c: char| is_ascii_upper(c)),
            digit == any_char(cs@.take(i as int), |c: char| is_ascii_digit(c)),
            other == any_char(cs@.take(i as int), |c: char| !is_ascii_alnum(c)),
        decreases cs@.len() - i,
    {
        let c = cs[i];
        let ghost t0 = cs@.take(i as int);
        let ghost t1 = cs@.take(i as int + 1);
        proof {
            assert forall|f: spec_fn(char) -> bool| #[trigger] any_char(t1, f) == (any_char(t0, f) || f(c)) by {
                if any_char(t1, f) {
                    let k = choose|k: int| 0 <= k < t1.len() && f(#[trigger] t1[k]);
                    if k < i {
                        assert(t0[k] == t1[k]);
                    }
                }
                if any_char(t0, f) {
                    let k = choose|k: int| 0 <= k < t0.len() && f(#[trigger] t0[k]);
                    assert(t1[k] == t0[k]);
                }
                if f(c) {
                    assert(t1[i as int] == c);
                }
            }
        }
        let is_lo = 'a' <= c && c <= 'z';
        let is_up = 'A' <= c && c <= 'Z';
        let is_dg = '0' <= c && c <= '9';
        lower = lower || is_lo;
        upper = upper || is_up;
        digit = digit || is_dg;
        other = other || !(is_lo || is_up || is_dg);
        i = i + 1;
    }
    proof {
        assert(cs@.take(cs@.len() as int) =~= cs@);
    }
    let classes: u32 = (if lower { 1 } else { 0 }) + (if upper { 1 } else { 0 }) + (if digit { 1 } else { 0 }) + (
    if other {
        1
    } else {
        0
    });
    if cs.len() < 8 || classes <= 2 {
        (to_owned_string("Weak"), "weak")
    } else if classes == 3 {
        (to_owned_string("Medium"), "medium")
    } else {
        (to_owned_string("Strong"), "strong")
    }
}

/// How a password of at least 8 characters rates, by which of the four
/// classes it holds (lowercase `lo`, uppercase `up`, digit `dg`, any other
/// character `ot`): all four is Strong; exactly three, whichever three, is
/// Medium; two or fewer is Weak. Shorter nonempty passwords are always
/// Weak, and only the empty one rates nothing.
pub proof fn lemma_strength_by_classes(p: Seq<char>)
    ensures
        ({
            let lo = any_char(p, |c: char| is_ascii_lower(c));
            let up = any_char(p, |c: char| is_ascii_upper(c));
            let dg = any_char(p, |c: char| is_ascii_digit(c));
            let ot = any_char(p, |c: char| !is_ascii_alnum(c));
            &&& p.len() >= 8 && lo && up && dg && ot ==> strength_text(strength_rank(p)) == ("Strong"@, "strong"@)
            &&& p.len() >= 8 && lo && up && dg && !ot ==> strength_text(strength_rank(p)) == ("Medium"@, "medium"@)
            &&& p.len() >= 8 && lo && up && !dg && ot ==> strength_text(strength_rank(p)) == ("Medium"@, "medium"@)
            &&& p.len() >= 8 && lo && !up && dg && ot ==> strength_text(strength_rank(p)) == ("Medium"@, "medium"@)
            &&& p.len() >= 8 && !lo && up && dg && ot ==> strength_text(strength_rank(p)) == ("Medium"@, "medium"@)
            &&& p.len() >= 8 && (!lo && !up || !lo && !dg || !lo && !ot || !up && !dg || !up && !ot || !dg && !ot)
                ==> strength_text(strength_rank(p)) == ("Weak"@, "weak"@)
            &&& 0 < p.len() < 8 ==> strength_text(strength_rank(p)) == ("Weak"@, "weak"@)
            &&& p.len() == 0 ==> strength_text(strength_rank(p)) == (Seq::<char>::empty(), Seq::<char>::empty())
        }),
{
}

proof fn lemma_any_char_extend(p: Seq<char>, q: Seq<char>, f: spec_fn(char) -> bool)
    ensures
        any_char(p, f) ==> any_char(p + q, f),
{
    if any_char(p, f) {
        let k = choose|k: int| 0 <= k < p.len() && f(#[trigger] p[k]);
        assert((p + q)[k] == p[k]);
    }
}

/// Typing more characters never lowers a password's strength.
pub proof fn lemma_strength_monotone(p: Seq<char>, q: Seq<char>)
    ensures
        strength_rank(p) <= strength_rank(p + q),
{
    lemma_any_char_extend(p, q, |c: char| is_ascii_lower(c));
    lemma_any_char_extend(p, q, |c: char| is_ascii_upper(c));
    lemma_any_char_extend(p, q, |c: char| is_ascii_digit(c));
    lemma_any_char_extend(p, q, |c: char| !is_ascii_alnum(c));
    assert(class_count(p) <= class_count(p + q));
}

/// The shortest master password accepted, in bytes of UTF-8.
pub const MIN_PASSWORD_LEN: usize = 8;

/// The message for a master password shorter than the minimum.
pub open spec fn too_short_message() -> Seq<char> {
    "Master password must be at least "@ + dec(MIN_PASSWORD_LEN as nat) + " characters"@
}

/// The checks of the Create button: a master password shorter than
/// `MIN_PASSWORD_LEN` bytes is refused first, then one that differs from
/// its confirmation; the error is the message shown under the fields.
pub fn validate_setup(password: &str, confirm: &str) -> (res: Result<(), String>)
    ensures
        password.len() < MIN_PASSWORD_LEN ==> (res matches Err(m) && m@ == too_short_message()),
        password.len() >= MIN_PASSWORD_LEN && password@ != confirm@ ==> (res matches Err(m) && m@
            == "Passwords do not match"@),
        password.len() >= MIN_PASSWORD_LEN && password@ == confirm@ ==> res is Ok,
{
    if password.len() < MIN_PASSWORD_LEN {
        let mut m = String::from_str("Master password must be at least ");
        push_decimal(&mut m, MIN_PASSWORD_LEN as u64);
        m.append(" characters");
        return Err(m);
    }
    if !str_eq(password, confirm) {
        return Err(to_owned_string("Passwords do not match"));
    }
    Ok(())
}

/// The setup screen: the error shown under the fields, if any, and
/// whether a create callback is installed.
pub struct SetupScreen {
    error: Option<String>,
    armed: bool,
}

impl SetupScreen {
    /// The error shown.
    pub closed spec fn error_spec(&self) -> Option<Seq<char>> {
        opt_str_view(self.error)
    }

    /// Whether a create callback is installed.
    pub closed spec fn armed(&self) -> bool {
        self.armed
    }

    /// A screen with no error shown and no callback.
    pub fn new() -> (res: SetupScreen)
        ensures
            res.error_spec() is None,
            !res.armed(),
    {
        SetupScreen { error: None, armed: false }
    }

    /// Installs the create callback (it stays installed: every accepted
    /// click calls it).
    pub fn set_on_create(&mut self)
        ensures
            final(self).armed(),
            final(self).error_spec() == old(self).error_spec(),
    {
        self.armed = true;
    }

    /// Shows `message` under the fields (and clears both entries).
    pub fn show_error(&mut self, message: &str)
        ensures
            final(self).error_spec() == Some(message@),
            final(self).armed() == old(self).armed(),
    {
        self.error = Some(to_owned_string(message));
    }

    /// A click on "Create" (or Enter in the confirmation field) with the
    /// two entries' texts. A refused password shows its message (both
    /// entries are cleared) and calls nothing; an accepted one hides the
    /// error and is handed to the create callback, once, when one is
    /// installed. The result is what the callback receives.
    pub fn create_clicked(&mut self, password: &str, confirm: &str) -> (res: Option<String>)
        ensures
            final(self).armed() == old(self).armed(),
            password.len() < MIN_PASSWORD_LEN ==> res is None && final(self).error_spec() == Some(too_short_message()),
            password.len() >= MIN_PASSWORD_LEN && password@ != confirm@ ==> res is None && final(self).error_spec()
                == Some("Passwords do not match"@),
            password.len() >= MIN_PASSWORD_LEN && password@ == confirm@ ==> final(self).error_spec() is None && (if old(
                self,
            ).armed() {
                res matches Some(p) && p@ == password@
            } else {
                res is None
            }),
    {
        match validate_setup(password, confirm) {
            Err(m) => {
                self.error = Some(m);
                None
            },
            Ok(()) => {
                self.error = None;
                if self.armed {
                    Some(to_owned_string(password))
                } else {
                    None
                }
            },
        }
    }

    /// The error shown, if any.
    pub fn error(&self) -> (res: Option<&String>)
        ensures
            match res {
                Some(e) => self.error_spec() == Some(e@),
                None => self.error_spec() is None,
            },
    {
        match &self.error {
            Some(e) => Some(e),
            None => None,
        }
    }
}

} // verus!
