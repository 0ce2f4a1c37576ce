//! AstraPass vault model: password entries and the in-memory vault that
//! holds them while it is unlocked.

use vstd::prelude::*;
use crate::digest::{random_bytes, sha256, sha256_digest};
use crate::text::{hex_of, hex_string, is_lower_hex, str_eq};
use crate::vm_config::time_since_epoch;
use vstd::string::StringSliceAdditionalSpecFns;

verus! {

/// Length in bytes of a vault's key-derivation salt.
pub const SALT_LEN: usize = 16;

/// Number of random bytes behind an entry id.
pub const ENTRY_ID_BYTES: usize = 16;

/// A single password entry.
#[derive(Clone, Debug)]
pub struct Entry {
    pub id: String,
    pub title: String,
    pub username: String,
    pub password: String,
    pub notes: String,
    pub favorite: bool,
    pub created_at: i64,
}

/// `n` bytes to fall back on when the operating system supplies no random
/// bytes: the clock's seconds and nanoseconds, little-endian, then zeros.
/// This fallback is this library's own choice, so that id and salt
/// creation never fails; such bytes are predictable and not random.
fn clock_bytes(n: usize) -> (res: Vec<u8>)
    ensures
        res@.len() == n,
{
    let (secs, nanos): (u64, u64) = match time_since_epoch() {
        Some((s, ns)) => (s, ns as u64),
        None => (0, 0),
    };
    let mut out: Vec<u8> = Vec::new();
    let mut k: usize = 0;
    while k < n
        invariant
            k <= n,
            out@.len() == k,
        decreases n - k,
    {
        let b: u8 = if k < 8 {
            ((secs >> ((k as u64) * 8)) & 0xff) as u8
        } else if k < 12 {
            ((nanos >> (((k - 8) as u64) * 8)) & 0xff) as u8
        } else {
            0
        };
        out.push(b);
        k = k + 1;
    }
    out
}

/// A fresh entry id: 16 random bytes in lowercase hex (the clock stands in
/// when the operating system supplies no random bytes).
pub fn new_entry_id() -> (res: String)
    ensures
        exists|b: Seq<u8>| b.len() == ENTRY_ID_BYTES && res@ == hex_of(b),
        res@.len() == 32,
        forall|i: int| 0 <= i < res@.len() ==> is_lower_hex(#[trigger] res@[i]),
{
    let bytes = match random_bytes(ENTRY_ID_BYTES) {
        Some(b) => b,
        None => clock_bytes(ENTRY_ID_BYTES),
    };
    hex_string(bytes.as_slice())
}

impl Entry {
    /// A new empty entry with a fresh random id and the given creation
    /// time (Unix seconds).
    pub fn new(created_at: i64) -> (res: Self)
        ensures
            exists|b: Seq<u8>| b.len() == ENTRY_ID_BYTES && res.id@ == hex_of(b),
            res.id@.len() == 32,
            forall|i: int| 0 <= i < res.id@.len() ==> is_lower_hex(#[trigger] res.id@[i]),
            res.title@ == Seq::<char>::empty(),
            res.username@ == Seq::<char>::empty(),
            res.password@ == Seq::<char>::empty(),
            res.notes@ == Seq::<char>::empty(),
            !res.favorite,
            res.created_at == created_at,
    {
        Entry {
            id: new_entry_id(),
            title: String::new(),
            username: String::new(),
            password: String::new(),
            notes: String::new(),
            favorite: false,
            created_at,
        }
    }
}

/// In-memory vault state: the plaintext entries, the salt, and the key
/// derived from the master password.
pub struct Vault {
    pub entries: Vec<Entry>,
    pub salt: Vec<u8>,
    key: Vec<u8>,
}

/// The key of a vault: SHA-256 of the master password's UTF-8 bytes
/// followed by the salt. This derivation is this library's own stand-in
/// (one hash, no work factor); it is not a password-hashing key-derivation
/// function, and vaults keyed this way are not encrypted by this library.
pub open spec fn vault_key(password: Seq<u8>, salt: Seq<u8>) -> Seq<u8> {
    sha256_digest(password + salt)
}

/// `i` is the first position of an entry with id `id`.
pub open spec fn first_entry(es: Seq<Entry>, id: Seq<char>, i: int) -> bool {
    0 <= i < es.len() && es[i].id@ == id && forall|j: int| 0 <= j < i ==> es[j].id@ != id
}

/// Some entry of `es` has id `id`.
pub open spec fn has_entry(es: Seq<Entry>, id: Seq<char>) -> bool {
    exists|i: int| 0 <= i < es.len() && es[i].id@ == id
}

/// The entries kept when removing id `id`.
pub open spec fn entry_kept(id: Seq<char>) -> spec_fn(Entry) -> bool {
    |e: Entry| e.id@ != id
}

/// `es` without the entries whose id is `id`.
pub open spec fn entries_without(es: Seq<Entry>, id: Seq<char>) -> Seq<Entry> {
    es.filter(entry_kept(id))
}

/// `e` with its favorite flag flipped.
pub open spec fn flipped(e: Entry) -> Entry {
    Entry { favorite: !e.favorite, ..e }
}

/// `es` with the favorite flag of the first entry with id `id` flipped
/// (unchanged when no entry has that id).
pub open spec fn toggled(es: Seq<Entry>, id: Seq<char>) -> Seq<Entry> {
    if exists|i: int| first_entry(es, id, i) {
        let i = choose|i: int| first_entry(es, id, i);
        es.update(i, flipped(es[i]))
    } else {
        es
    }
}

/// The position of the first entry with id `id`.
fn find_entry_index(es: &Vec<Entry>, id: &str) -> (res: Option<usize>)
    ensures
        match res {
            Some(i) => first_entry(es@, id@, i as int),
            None => !has_entry(es@, id@),
        },
{
    let mut i: usize = 0;
    while i < es.len()
        invariant
            i <= es@.len(),
            forall|j: int| 0 <= j < i ==> es@[j].id@ != id@,
        decreases es@.len() - i,
    {
        if str_eq(es[i].id.as_str(), id) {
            return Some(i);
        }
        i = i + 1;
    }
    None
}

proof fn lemma_first_entry_unique(es: Seq<Entry>, id: Seq<char>, i: int, k: int)
    requires
        first_entry(es, id, i),
        first_entry(es, id, k),
    ensures
        i == k,
{
    if i < k {
        assert(es[i].id@ != id);
    } else if k < i {
        assert(es[k].id@ != id);
    }
}

impl View for Vault {
    type V = (Seq<Entry>, Seq<u8>, Seq<u8>);

    /// The entries, the salt and the key.
    closed spec fn view(&self) -> (Seq<Entry>, Seq<u8>, Seq<u8>) {
        (self.entries@, self.salt@, self.key@)
    }
}

impl Vault {
    /// A brand-new empty vault: a fresh salt of `SALT_LEN` bytes (random,
    /// or the clock's bytes when the operating system supplies none) and
    /// the key derived from `master_password` with it by `vault_key`.
    /// Nothing is written.
    pub fn create(master_password: &str) -> (res: Self)
        ensures
            res@.0 == Seq::<Entry>::empty(),
            res@.1.len() == SALT_LEN,
            res@.2 == vault_key(master_password.spec_bytes(), res@.1),
    {
        let salt = match random_bytes(SALT_LEN) {
            Some(b) => b,
            None => clock_bytes(SALT_LEN),
        };
        let mut material = master_password.as_bytes_vec();
        let mut salt_copy = salt.clone();
        material.append(&mut salt_copy);
        let key = sha256(material.as_slice());
        Vault { entries: Vec::new(), salt, key }
    }

    /// Appends an entry.
    pub fn add_entry(&mut self, entry: Entry)
        ensures
            final(self)@.0 == old(self)@.0.push(entry),
            final(self)@.1 == old(self)@.1,
            final(self)@.2 == old(self)@.2,
    {
        self.entries.push(entry);
    }

    /// The entries, read-only.
    pub fn get_entries(&self) -> (res: &[Entry])
        ensures
            res@ == self@.0,
    {
        self.entries.as_slice()
    }

    /// The first entry with id `id`, if any, for in-place edits.
    pub fn find_entry_mut(&mut self, id: &str) -> (res: Option<&mut Entry>)
        ensures
            match res {
                Some(e) => exists|i: int|
                    first_entry(old(self)@.0, id@, i) && *e == old(self)@.0[i]
                        && final(self)@.0 == old(self)@.0.update(i, *final(e))
                        && final(self)@.1 == old(self)@.1
                        && final(self)@.2 == old(self)@.2,
                None => !has_entry(old(self)@.0, id@) && final(self)@.0 == old(
                    self,
                )@.0 && final(self)@.1 == old(self)@.1 && final(self)@.2
                    == old(self)@.2,
            },
    {
        match find_entry_index(&self.entries, id) {
            Some(i) => {
                proof {
                    assert(first_entry(self@.0, id@, i as int));
                }
                Some(&mut self.entries[i])
            },
            None => None,
        }
    }

    /// Removes every entry with id `id`; true when one was removed.
    pub fn remove_entry(&mut self, id: &str) -> (res: bool)
        ensures
            final(self)@.0 == entries_without(old(self)@.0, id@),
            res == has_entry(old(self)@.0, id@),
            final(self)@.1 == old(self)@.1,
            final(self)@.2 == old(self)@.2,
    {
        let mut kept: Vec<Entry> = Vec::new();
        let mut removed = false;
        let ghost pred = entry_kept(id@);
        let mut rest: Vec<Entry> = Vec::new();
        std::mem::swap(&mut rest, &mut self.entries);
        let ghost orig = rest@;
        let n = rest.len();
        let mut i: usize = 0;
        while i < n
            invariant
                n == orig.len(),
                i <= n,
                rest@ == orig.skip(i as int),
                pred == entry_kept(id@),
                kept@ == orig.take(i as int).filter(pred),
                removed == has_entry(orig.take(i as int), id@),
            decreases n - i,
        {
            let e = rest.remove(0);
            let ghost ee = e;
            proof {
                assert(ee == orig[i as int]);
                assert(rest@ =~= orig.skip(i as int + 1));
                let t1 = orig.take(i as int + 1);
                assert(t1.drop_last() =~= orig.take(i as int));
                assert(t1.last() == orig[i as int]);
                assert(t1.filter(pred) == if pred(t1.last()) {
                    t1.drop_last().filter(pred).push(t1.last())
                } else {
                    t1.drop_last().filter(pred)
                }) by {
                    reveal_with_fuel(Seq::<_>::filter, 1);
                }
            }
            let matches = str_eq(e.id.as_str(), id);
            proof {
                let t1 = orig.take(i as int + 1);
                let t0 = orig.take(i as int);
                assert(has_entry(t1, id@) == (has_entry(t0, id@) || matches)) by {
                    if has_entry(t1, id@) && !matches {
                        let j = choose|j: int| 0 <= j < t1.len() && #[trigger] t1[j].id@ == id@;
                        assert(j < i);
                        assert(t0[j] == t1[j]);
                    }
                    if has_entry(t0, id@) {
                        let j = choose|j: int| 0 <= j < t0.len() && #[trigger] t0[j].id@ == id@;
                        assert(t0[j] == t1[j]);
                    }
                    if matches {
                        assert(t1[i as int].id@ == id@);
                    }
                }
            }
            if matches {
                removed = true;
            } else {
                kept.push(e);
            }
            i = i + 1;
        }
        proof {
            assert(orig.take(n as int) =~= orig);
        }
        self.entries = kept;
        removed
    }

    /// Flips the favorite flag of the first entry with id `id`.
    pub fn toggle_favorite(&mut self, id: &str)
        ensures
            final(self)@.0 == toggled(old(self)@.0, id@),
            final(self)@.1 == old(self)@.1,
            final(self)@.2 == old(self)@.2,
    {
        let ghost es = self.entries@;
        match find_entry_index(&self.entries, id) {
            Some(i) => {
                let ghost k = choose|k: int| first_entry(es, id@, k);
                proof {
                    lemma_first_entry_unique(es, id@, i as int, k);
                }
                let e = &mut self.entries[i];
                e.favorite = !e.favorite;
                proof {
                    assert(self@.0 =~= es.update(i as int, flipped(es[i as int])));
                }
            },
            None => {
                proof {
                    assert(!exists|i: int| first_entry(es, id@, i));
                }
            },
        }
    }
}

/// Toggling the favorite flag of an entry twice restores the entries.
pub proof fn lemma_toggle_favorite_twice(es: Seq<Entry>, id: Seq<char>)
    ensures
        toggled(toggled(es, id), id) == es,
{
    if exists|i: int| first_entry(es, id, i) {
        let i = choose|i: int| first_entry(es, id, i);
        let t = toggled(es, id);
        assert(t == es.update(i, flipped(es[i])));
        assert(first_entry(t, id, i));
        let k = choose|k: int| first_entry(t, id, k);
        assert(k == i) by {
            if k < i {
                assert(t[k] == es[k]);
            } else if i < k {
                assert(t[i].id@ == id);
            }
        }
        assert(toggled(t, id) =~= es);
    }
}

/// After `remove_entry`, no entry carries the removed id, and every other
/// entry keeps its relative order.
pub proof fn lemma_removed_id_absent(es: Seq<Entry>, id: Seq<char>)
    ensures
        !has_entry(entries_without(es, id), id),
        entries_without(es, id).len() <= es.len(),
{
    broadcast use vstd::seq_lib::group_filter_ensures;
    let r = entries_without(es, id);
    if has_entry(r, id) {
        let j = choose|j: int| 0 <= j < r.len() && r[j].id@ == id;
        assert(entry_kept(id)(r[j]));
    }
}

/// An entry added under a new id is the one `find_entry_mut` reaches for
/// that id.
pub proof fn lemma_added_entry_found(es: Seq<Entry>, e: Entry)
    requires
        !has_entry(es, e.id@),
    ensures
        first_entry(es.push(e), e.id@, es.len() as int),
        es.push(e)[es.len() as int] == e,
{
    let s = es.push(e);
    assert forall|j: int| 0 <= j < es.len() implies s[j].id@ != e.id@ by {
        assert(s[j] == es[j]);
    }
}

} // verus!
