//! Lock-screen password check: SHA-256 of the password and a fixed salt,
//! hex-encoded, compared with the stored hash; without a stored hash the
//! default password `astraos` is accepted.

use vstd::prelude::*;
use vstd::string::StringSliceAdditionalSpecFns;
use crate::digest::{hex_encode, sha256, sha256_digest};
use crate::text::{chars_eq, hex_of, is_lower_hex, is_ws, str_eq, trim, trim_end, trim_start, trim_str, chars_of};

verus! {

/// The salt appended to the password before hashing: the bytes of
/// `::astra_salt_v1`.
pub open spec fn password_salt() -> Seq<u8> {
    seq![58u8, 58, 97, 115, 116, 114, 97, 95, 115, 97, 108, 116, 95, 118, 49]
}

/// The stored form of a password: lowercase hex of SHA-256 over its UTF-8
/// bytes followed by the salt.
pub open spec fn password_hash_of(password: Seq<u8>) -> Seq<char> {
    hex_of(sha256_digest(password + password_salt()))
}

/// Whether `input` unlocks the screen: it must hash to the stored hash
/// (surrounding whitespace of the stored text ignored) or, when no hash is
/// stored, be `astraos`.
pub open spec fn password_accepted(input: &str, stored: Option<Seq<char>>) -> bool {
    match stored {
        Some(s) => password_hash_of(input.spec_bytes()) == trim(s),
        None => input@ == "astraos"@,
    }
}

/// The hash stored for `password`.
pub fn password_hash(password: &str) -> (res: String)
    ensures
        res@ == password_hash_of(password.spec_bytes()),
{
    let mut material = password.as_bytes_vec();
    let mut salt: Vec<u8> = vec![58u8, 58, 97, 115, 116, 114, 97, 95, 115, 97, 108, 116, 95, 118, 49];
    assert(salt@ =~= password_salt());
    material.append(&mut salt);
    let digest = sha256(material.as_slice());
    hex_encode(digest.as_slice())
}

/// Checks a typed password against the stored hash (`None` when no hash
/// file exists yet).
pub fn verify_password(input: &str, stored: Option<&str>) -> (res: bool)
    ensures
        res == password_accepted(input, match stored { Some(s) => Some(s@), None => None }),
{
    match stored {
        Some(s) => {
            let h = password_hash(input);
            let hc = chars_of(h.as_str());
            let t = trim_str(s);
            chars_eq(hc.as_slice(), t.as_slice())
        },
        None => str_eq(input, "astraos"),
    }
}

proof fn lemma_hex_not_ws(s: Seq<char>)
    requires
        forall|i: int| 0 <= i < s.len() ==> is_lower_hex(#[trigger] s[i]),
    ensures
        trim(s) == s,
{
    if s.len() > 0 {
        assert(!is_ws(s[0]));
        assert(!is_ws(s.last()));
    }
    assert(trim_start(s) == s);
    assert(trim_end(s) == s);
}

proof fn lemma_hex_of_chars(bytes: Seq<u8>)
    ensures
        forall|i: int| 0 <= i < hex_of(bytes).len() ==> is_lower_hex(#[trigger] hex_of(bytes)[i]),
    decreases bytes.len(),
{
    if bytes.len() > 0 {
        lemma_hex_of_chars(bytes.drop_last());
        let b = bytes.last();
        let h = hex_of(bytes.drop_last());
        let t = seq![crate::text::hex_digit(b as nat / 16), crate::text::hex_digit(b as nat % 16)];
        assert forall|i: int| 0 <= i < hex_of(bytes).len() implies is_lower_hex(#[trigger] hex_of(bytes)[i]) by {
            if i < h.len() {
                assert(hex_of(bytes)[i] == h[i]);
            } else {
                assert(hex_of(bytes)[i] == t[i - h.len()]);
            }
        }
    }
}

/// The stored hash text is its own trimmed form: writing it to the hash file
/// and reading it back accepts the same password.
pub proof fn lemma_hash_is_trimmed(password: Seq<u8>)
    ensures
        trim(password_hash_of(password)) == password_hash_of(password),
{
    lemma_hex_of_chars(sha256_digest(password + password_salt()));
    lemma_hex_not_ws(password_hash_of(password));
}

/// A password is accepted against the hash stored for it.
pub proof fn lemma_own_hash_accepted(input: &str)
    ensures
        password_accepted(input, Some(password_hash_of(input.spec_bytes()))),
{
    lemma_hash_is_trimmed(input.spec_bytes());
}

/// How long the entry shakes after a wrong password, in ms.
pub const SHAKE_DURATION_MS: u64 = 500;

/// What the lock screen does with a submitted password.
#[derive(Clone, Copy, Debug, PartialEq, Eq, Structural)]
pub enum SubmitOutcome {
    /// Hide the screen and hand over to the session.
    Unlock,
    /// Shake the entry for this many ms (the `error` class), then let the
    /// user retry.
    Shake(u64),
}

/// A password submitted on the lock screen (the entry is cleared either
/// way): unlock when it is accepted against `stored`, the content of the
/// hash file if there is one, otherwise shake.
pub fn submit(input: &str, stored: Option<&str>) -> (res: SubmitOutcome)
    ensures
        res == if password_accepted(input, match stored { Some(s) => Some(s@), None => None }) {
            SubmitOutcome::Unlock
        } else {
            SubmitOutcome::Shake(SHAKE_DURATION_MS)
        },
{
    if verify_password(input, stored) {
        SubmitOutcome::Unlock
    } else {
        SubmitOutcome::Shake(SHAKE_DURATION_MS)
    }
}

/// What the lock screen does with a submitted password, for its window
/// and its unlock callback.
#[derive(Clone, Copy, Debug, PartialEq, Eq, Structural)]
pub enum LockStep {
    /// Hide the screen; `hand_over` when the unlock callback fires now (it
    /// fires on the first accepted password only).
    Unlock { hand_over: bool },
    /// Shake the entry for this many ms.
    Shake(u64),
}

/// The lock screen: whether it shows, and whether its unlock callback is
/// still to fire.
pub struct LockScreen {
    visible: bool,
    armed: bool,
}

impl LockScreen {
    /// Whether the screen shows.
    pub closed spec fn shows(&self) -> bool {
        self.visible
    }

    /// Whether the unlock callback is still to fire.
    pub closed spec fn armed(&self) -> bool {
        self.armed
    }

    /// A lock screen holding its unlock callback, not yet presented.
    pub fn new() -> (res: LockScreen)
        ensures
            !res.shows(),
            res.armed(),
    {
        LockScreen { visible: false, armed: true }
    }

    /// Shows the screen.
    pub fn present(&mut self)
        ensures
            final(self).shows(),
            final(self).armed() == old(self).armed(),
    {
        self.visible = true;
    }

    /// A password submitted (the entry is cleared either way). Accepted
    /// against `stored`: the screen hides and the unlock callback fires if
    /// it has not fired yet, after which it is used up. Refused: the entry
    /// shakes and nothing else changes.
    pub fn submit(&mut self, input: &str, stored: Option<&str>) -> (res: LockStep)
        ensures
            password_accepted(input, match stored { Some(s) => Some(s@), None => None }) ==> {
                &&& res == LockStep::Unlock { hand_over: old(self).armed() }
                &&& !final(self).shows()
                &&& !final(self).armed()
            },
            !password_accepted(input, match stored { Some(s) => Some(s@), None => None }) ==> {
                &&& res == LockStep::Shake(SHAKE_DURATION_MS)
                &&& final(self).shows() == old(self).shows()
                &&& final(self).armed() == old(self).armed()
            },
    {
        match submit(input, stored) {
            SubmitOutcome::Unlock => {
                let hand_over = self.armed;
                self.armed = false;
                self.visible = false;
                LockStep::Unlock { hand_over }
            },
            SubmitOutcome::Shake(ms) => LockStep::Shake(ms),
        }
    }
}

} // verus!
