//! Sessions: a playlist kept in the cache under an identifier that the
//! server makes up when the caller asks for a new session.
//!
//! An identifier is the URL-safe base-64 writing, without padding, of nine
//! bytes: one random byte, then the time in milliseconds as eight bytes,
//! most significant first. The random byte and the clock are the caller's to
//! supply. Such identifiers are unique only as far as their inputs are: two
//! sessions made in the same millisecond with the same random byte collide,
//! and an identifier can be guessed by whoever knows roughly when it was
//! made.

use vstd::prelude::*;

use crate::freshness::SESSION_TTL;
use crate::key::{key_text, keyable, SEPARATOR};
use crate::store::{CommandView, StoreCommand};
use crate::text::same_text;
use crate::youtube::PlaylistEntry;

verus! {

/// A saved playlist. It is stored and replaced as a whole.
#[derive(Debug, Clone, PartialEq)]
pub struct Session {
    pub id: String,
    pub playlist: Vec<PlaylistEntry>,
}

/// The character that writes the base-64 digit `d` in the URL-safe alphabet:
/// `A`–`Z`, `a`–`z`, `0`–`9`, `-`, `_`.
pub open spec fn symbol(d: nat) -> char {
    if d < 26 {
        ((65 + d) as u8) as char
    } else if d < 52 {
        ((97 + d - 26) as u8) as char
    } else if d < 62 {
        ((48 + d - 52) as u8) as char
    } else if d == 62 {
        '-'
    } else {
        '_'
    }
}

fn symbol_of(d: u8) -> (c: char)
    requires
        d < 64,
    ensures
        c == symbol(d as nat),
{
    if d < 26 {
        (65 + d) as char
    } else if d < 52 {
        (97 + (d - 26)) as char
    } else if d < 62 {
        (48 + (d - 52)) as char
    } else if d == 62 {
        '-'
    } else {
        '_'
    }
}

/// The `count` lowest base-64 digits of `n`, most significant first.
pub open spec fn sextets(n: nat, count: nat) -> Seq<nat>
    decreases count,
{
    if count == 0 {
        Seq::empty()
    } else {
        sextets(n / 64, (count - 1) as nat).push(n % 64)
    }
}

/// The digits written out in the URL-safe alphabet.
pub open spec fn written(digits: Seq<nat>) -> Seq<char> {
    Seq::new(digits.len(), |i: int| symbol(digits[i]))
}

/// The nine bytes of an identifier read as one number: the random byte in
/// front of the eight bytes of the time.
pub open spec fn stamp(random: u8, millis: u64) -> nat {
    (random as nat) * 0x1_0000_0000_0000_0000 + (millis as nat)
}

/// How many characters an identifier has.
pub const ID_LENGTH: usize = 12;

/// The identifier made from `random` and `millis`.
pub open spec fn id_text(random: u8, millis: u64) -> Seq<char> {
    written(sextets(stamp(random, millis), ID_LENGTH as nat))
}

fn write_sextets(n: u128, count: u8) -> (text: String)
    ensures
        text@ == written(sextets(n as nat, count as nat)),
    decreases count,
{
    if count == 0 {
        let text = String::new();
        assert(text@ =~= written(sextets(n as nat, 0)));
        text
    } else {
        let mut text = write_sextets(n / 64, count - 1);
        let digit: u8 = (n % 64) as u8;
        text.push(symbol_of(digit));
        assert(text@ =~= written(sextets(n as nat, count as nat)));
        text
    }
}

/// Makes the identifier of a new session from a random byte and the time in
/// milliseconds.
pub fn session_id(random: u8, millis: u64) -> (id: String)
    ensures
        id@ == id_text(random, millis),
{
    let n: u128 = (random as u128) * 0x1_0000_0000_0000_0000 + (millis as u128);
    write_sextets(n, 12)
}

/// The identifier that a request names: a new one where the request says
/// `new`, and else the one it gives.
pub fn requested_id(requested: &str, random: u8, millis: u64) -> (id: String)
    ensures
        id@ == (if requested@ == "new"@ {
            id_text(random, millis)
        } else {
            requested@
        }),
{
    if same_text(requested, "new") {
        session_id(random, millis)
    } else {
        requested.to_owned()
    }
}

/// The cache key of the session `id`.
pub open spec fn session_key_text(id: Seq<char>) -> Seq<char> {
    key_text("session"@, id)
}

/// The cache key of the session `id`.
pub fn session_key(id: &str) -> (key: String)
    ensures
        key@ == session_key_text(id@),
{
    let mut key = "session".to_owned();
    key.push(SEPARATOR);
    vstd::string::StringExecFns::append(&mut key, id);
    key
}

/// The command that saves the session `id` with `payload` as its stored
/// form, for ten days.
pub fn save_command(id: &str, payload: String) -> (command: StoreCommand)
    ensures
        command@ == (CommandView::SetEx {
            key: session_key_text(id@),
            value: payload@,
            ttl: SESSION_TTL as nat,
        }),
{
    StoreCommand::SetEx { key: session_key(id), value: payload, ttl: SESSION_TTL }
}

/// The command that loads the session `id`.
pub fn load_command(id: &str) -> (command: StoreCommand)
    ensures
        command@ == (CommandView::Get { key: session_key_text(id@) }),
{
    StoreCommand::Get { key: session_key(id) }
}

/// Different digits are written with different characters.
pub proof fn lemma_symbol_injective(a: nat, b: nat)
    requires
        a < 64,
        b < 64,
        symbol(a) == symbol(b),
    ensures
        a == b,
{
    assert(symbol(a) as u32 == symbol(b) as u32);
}

/// The number of values that `count` base-64 digits can tell apart.
pub open spec fn capacity(count: nat) -> nat
    decreases count,
{
    if count == 0 {
        1
    } else {
        64 * capacity((count - 1) as nat)
    }
}

proof fn lemma_sextets_shape(n: nat, count: nat)
    ensures
        sextets(n, count).len() == count,
        forall|i: int| 0 <= i < count ==> #[trigger] sextets(n, count)[i] < 64,
    decreases count,
{
    if count > 0 {
        lemma_sextets_shape(n / 64, (count - 1) as nat);
    }
}

proof fn lemma_sextets_injective(n: nat, m: nat, count: nat)
    requires
        n < capacity(count),
        m < capacity(count),
        sextets(n, count) == sextets(m, count),
    ensures
        n == m,
    decreases count,
{
    if count > 0 {
        let rest = (count - 1) as nat;
        lemma_sextets_shape(n / 64, rest);
        lemma_sextets_shape(m / 64, rest);
        let left = sextets(n / 64, rest);
        let right = sextets(m / 64, rest);
        assert(left.push(n % 64).drop_last() == left);
        assert(right.push(m % 64).drop_last() == right);
        assert(left.push(n % 64).last() == n % 64);
        assert(right.push(m % 64).last() == m % 64);
        assert(left == right);
        lemma_sextets_injective(n / 64, m / 64, rest);
    }
}

proof fn lemma_capacity_of_an_identifier()
    ensures
        capacity(12) == 0x1_00_0000_0000_0000_0000,
{
    assert(capacity(0) == 1);
    assert(capacity(1) == 64);
    assert(capacity(2) == 0x1000);
    assert(capacity(3) == 0x4_0000);
    assert(capacity(4) == 0x100_0000);
    assert(capacity(5) == 0x4000_0000);
    assert(capacity(6) == 0x10_0000_0000);
    assert(capacity(7) == 0x400_0000_0000);
    assert(capacity(8) == 0x1_0000_0000_0000);
    assert(capacity(9) == 0x40_0000_0000_0000);
    assert(capacity(10) == 0x1000_0000_0000_0000);
    assert(capacity(11) == 0x4_0000_0000_0000_0000);
}

/// Whether `c` may stand in an address without being escaped: a letter, a
/// digit, `-` or `_`.
pub open spec fn url_safe(c: char) -> bool {
    ('A' <= c && c <= 'Z') || ('a' <= c && c <= 'z') || ('0' <= c && c <= '9') || c == '-' || c
        == '_'
}

/// An identifier has twelve characters, all of them URL-safe.
pub proof fn law_session_id_shape(random: u8, millis: u64)
    ensures
        id_text(random, millis).len() == ID_LENGTH,
        forall|i: int| 0 <= i < ID_LENGTH ==> url_safe(#[trigger] id_text(random, millis)[i]),
{
    let digits = sextets(stamp(random, millis), ID_LENGTH as nat);
    lemma_sextets_shape(stamp(random, millis), ID_LENGTH as nat);
    assert forall|i: int| 0 <= i < ID_LENGTH implies url_safe(
        #[trigger] id_text(random, millis)[i],
    ) by {
        assert(digits[i] < 64 && id_text(random, millis)[i] == symbol(digits[i]));
    }
}

/// Two identifiers are the same only if they were made from the same random
/// byte at the same millisecond.
pub proof fn law_session_ids_differ(random: u8, millis: u64, other_random: u8, other_millis: u64)
    requires
        id_text(random, millis) == id_text(other_random, other_millis),
    ensures
        random == other_random,
        millis == other_millis,
{
    let n = stamp(random, millis);
    let m = stamp(other_random, other_millis);
    let count = ID_LENGTH as nat;
    lemma_sextets_shape(n, count);
    lemma_sextets_shape(m, count);
    let left = sextets(n, count);
    let right = sextets(m, count);
    assert(left =~= right) by {
        assert forall|i: int| 0 <= i < count implies left[i] == right[i] by {
            assert(written(left)[i] == symbol(left[i]));
            assert(written(right)[i] == symbol(right[i]));
            lemma_symbol_injective(left[i], right[i]);
        }
    }
    lemma_capacity_of_an_identifier();
    lemma_sextets_injective(n, m, count);
}

/// Sessions with different identifiers are stored under different keys, and
/// no session shares its key with a request of another operation.
pub proof fn law_session_keys_differ(id: Seq<char>, operation: Seq<char>, query: Seq<char>)
    requires
        keyable(operation),
        session_key_text(id) == key_text(operation, query),
    ensures
        operation == "session"@,
        query == id,
{
    reveal_strlit("session");
    assert(keyable("session"@)) by {
        let name = "session"@;
        assert forall|i: int| 0 <= i < name.len() implies name[i] != SEPARATOR by {}
    }
    crate::key::law_keys_do_not_collide("session"@, id, operation, query);
}

} // verus!
