//! Events, their canonical encoding, and the hash-chained event log.

use vstd::prelude::*;
use vstd::utf8::{encode_utf8, encode_utf8_decode_utf8};
use crate::hash::HashAlgorithm;

verus! {

/// The character that separates the fields of an event's canonical text.
pub const SEPARATOR: char = ' ';

/// The canonical text of an event: its three fields joined by the separator.
pub open spec fn canonical_text(domain: Seq<char>, operation: Seq<char>, content: Seq<char>) -> Seq<
    char,
> {
    domain + seq![SEPARATOR] + operation + seq![SEPARATOR] + content
}

/// A field that can stand before another one in the canonical text: no
/// separator and no line break.
pub open spec fn is_inner_field(s: Seq<char>) -> bool {
    !s.contains(SEPARATOR) && !s.contains('\n')
}

/// The last field of the canonical text may hold separators, but no line break.
pub open spec fn is_last_field(s: Seq<char>) -> bool {
    !s.contains('\n')
}

/// Fields that give a well-formed, single-line canonical text.
pub open spec fn is_legal_event(domain: Seq<char>, operation: Seq<char>, content: Seq<char>) -> bool {
    is_inner_field(domain) && is_inner_field(operation) && is_last_field(content)
}

/// Where the first separator stands in a canonical text whose domain holds none.
proof fn lemma_first_separator(d: Seq<char>, o: Seq<char>, c: Seq<char>)
    requires
        !d.contains(SEPARATOR),
    ensures
        canonical_text(d, o, c)[d.len() as int] == SEPARATOR,
        forall|j: int| 0 <= j < d.len() ==> canonical_text(d, o, c)[j] != SEPARATOR,
        canonical_text(d, o, c).subrange(0, d.len() as int) == d,
        canonical_text(d, o, c).subrange(d.len() as int + 1, canonical_text(d, o, c).len() as int) == o
            + seq![SEPARATOR] + c,
{
    let t = canonical_text(d, o, c);
    assert forall|j: int| 0 <= j < d.len() implies t[j] != SEPARATOR by {
        assert(t[j] == d[j]);
        if d[j] == SEPARATOR {
            assert(d.contains(SEPARATOR));
        }
    }
    assert(t.subrange(0, d.len() as int) =~= d);
    assert(t.subrange(d.len() as int + 1, t.len() as int) =~= o + seq![SEPARATOR] + c);
}

/// Two texts that agree, and whose first separator-free prefixes `a` and `b`
/// are each followed by a separator, have equal prefixes.
proof fn lemma_prefix_equal(t: Seq<char>, a: Seq<char>, b: Seq<char>)
    requires
        a.len() < t.len(),
        b.len() < t.len(),
        t[a.len() as int] == SEPARATOR,
        t[b.len() as int] == SEPARATOR,
        forall|j: int| 0 <= j < a.len() ==> t[j] != SEPARATOR,
        forall|j: int| 0 <= j < b.len() ==> t[j] != SEPARATOR,
    ensures
        a.len() == b.len(),
{
    if a.len() < b.len() {
        assert(t[a.len() as int] != SEPARATOR);
    } else if b.len() < a.len() {
        assert(t[b.len() as int] != SEPARATOR);
    }
}

/// The canonical encoding is unambiguous: when neither the domain nor the
/// operation holds the separator, equal canonical texts come from equal
/// fields, so distinct events always have distinct texts.
pub proof fn lemma_canonical_text_injective(
    d1: Seq<char>,
    o1: Seq<char>,
    c1: Seq<char>,
    d2: Seq<char>,
    o2: Seq<char>,
    c2: Seq<char>,
)
    requires
        !d1.contains(SEPARATOR),
        !o1.contains(SEPARATOR),
        !d2.contains(SEPARATOR),
        !o2.contains(SEPARATOR),
    ensures
        canonical_text(d1, o1, c1) == canonical_text(d2, o2, c2) <==> (d1 == d2 && o1 == o2 && c1
            == c2),
{
    let t1 = canonical_text(d1, o1, c1);
    let t2 = canonical_text(d2, o2, c2);
    if t1 == t2 {
        lemma_first_separator(d1, o1, c1);
        lemma_first_separator(d2, o2, c2);
        lemma_prefix_equal(t1, d1, d2);
        let rest = t1.subrange(d1.len() as int + 1, t1.len() as int);
        assert(rest == o1 + seq![SEPARATOR] + c1);
        assert(rest == o2 + seq![SEPARATOR] + c2);
        let e = Seq::<char>::empty();
        assert(canonical_text(e, o1, c1) =~= seq![SEPARATOR] + rest);
        assert(canonical_text(e, o2, c2) =~= seq![SEPARATOR] + rest);
        let u = seq![SEPARATOR] + rest;
        assert forall|j: int| 0 <= j < o1.len() implies rest[j] != SEPARATOR by {
            assert(rest[j] == o1[j]);
            if o1[j] == SEPARATOR {
                assert(o1.contains(SEPARATOR));
            }
        }
        assert forall|j: int| 0 <= j < o2.len() implies rest[j] != SEPARATOR by {
            assert(rest[j] == o2[j]);
            if o2[j] == SEPARATOR {
                assert(o2.contains(SEPARATOR));
            }
        }
        assert(rest[o1.len() as int] == SEPARATOR);
        assert(rest[o2.len() as int] == SEPARATOR);
        lemma_prefix_equal(rest, o1, o2);
        assert(d1 =~= t1.subrange(0, d1.len() as int));
        assert(d2 =~= t2.subrange(0, d2.len() as int));
        assert(o1 =~= rest.subrange(0, o1.len() as int));
        assert(o2 =~= rest.subrange(0, o2.len() as int));
        assert(c1 =~= rest.subrange(o1.len() as int + 1, rest.len() as int));
        assert(c2 =~= rest.subrange(o2.len() as int + 1, rest.len() as int));
    }
}

/// Distinct events whose domain and operation hold no separator give distinct
/// digest inputs: the UTF-8 bytes of their canonical texts differ, so only a
/// collision of the digest algorithm could give them one digest.
pub proof fn lemma_distinct_events_distinct_digest_inputs(
    d1: Seq<char>,
    o1: Seq<char>,
    c1: Seq<char>,
    d2: Seq<char>,
    o2: Seq<char>,
    c2: Seq<char>,
)
    requires
        !d1.contains(SEPARATOR),
        !o1.contains(SEPARATOR),
        !d2.contains(SEPARATOR),
        !o2.contains(SEPARATOR),
        !(d1 == d2 && o1 == o2 && c1 == c2),
    ensures
        encode_utf8(canonical_text(d1, o1, c1)) != encode_utf8(canonical_text(d2, o2, c2)),
{
    lemma_canonical_text_injective(d1, o1, c1, d2, o2, c2);
    encode_utf8_decode_utf8(canonical_text(d1, o1, c1));
    encode_utf8_decode_utf8(canonical_text(d2, o2, c2));
}

/// The text of the synthetic entry that opens the log:
/// `INIT <algorithm>/<all-zero digest in hex>`.
pub open spec fn init_text(alg: HashAlgorithm) -> Seq<char> {
    seq!['I', 'N', 'I', 'T', SEPARATOR] + alg.spec_name() + seq!['/'] + alg.spec_zero_digest_hex()
}

/// Whether `s` holds the character `c`.
pub fn has_char(s: &str, c: char) -> (r: bool)
    ensures
        r == s@.contains(c),
{
    let n = s.unicode_len();
    let mut i: usize = 0;
    while i < n
        invariant
            n as nat == s@.len(),
            i <= n,
            forall|j: int| 0 <= j < i ==> s@[j] != c,
        decreases n - i,
    {
        if s.get_char(i) == c {
            return true;
        }
        i = i + 1;
    }
    false
}

/// One recordable occurrence: a domain, an operation and a free-form content.
#[derive(Clone, Debug)]
pub struct EventEntry {
    domain: String,
    operation: String,
    content: String,
}

impl EventEntry {
    pub closed spec fn spec_domain(&self) -> Seq<char> {
        self.domain@
    }

    pub closed spec fn spec_operation(&self) -> Seq<char> {
        self.operation@
    }

    pub closed spec fn spec_content(&self) -> Seq<char> {
        self.content@
    }

    /// The canonical text of this entry.
    pub open spec fn spec_text(&self) -> Seq<char> {
        canonical_text(self.spec_domain(), self.spec_operation(), self.spec_content())
    }

    pub fn new(domain: &str, operation: &str, content: &str) -> (r: Self)
        ensures
            r.spec_domain() == domain@,
            r.spec_operation() == operation@,
            r.spec_content() == content@,
    {
        EventEntry {
            domain: domain.to_owned(),
            operation: operation.to_owned(),
            content: content.to_owned(),
        }
    }

    /// Whether the fields give a single-line text that reads back into the
    /// same three fields.
    pub fn is_legal(&self) -> (r: bool)
        ensures
            r == is_legal_event(self.spec_domain(), self.spec_operation(), self.spec_content()),
    {
        !has_char(self.domain.as_str(), SEPARATOR) && !has_char(self.domain.as_str(), '\n')
            && !has_char(self.operation.as_str(), SEPARATOR) && !has_char(
            self.operation.as_str(),
            '\n',
        ) && !has_char(self.content.as_str(), '\n')
    }

    /// The canonical text: `<domain> <operation> <content>`.
    pub fn to_string(&self) -> (r: String)
        ensures
            r@ == self.spec_text(),
    {
        let mut r = self.domain.clone();
        proof {
            reveal_strlit(" ");
        }
        r.append(" ");
        r.append(self.operation.as_str());
        r.append(" ");
        r.append(self.content.as_str());
        assert(r@ =~= self.spec_text());
        r
    }

    /// The digest of the canonical text's UTF-8 bytes under `alg`.
    pub fn digest_with(&self, alg: HashAlgorithm) -> (r: Vec<u8>)
        ensures
            r@ == alg.spec_digest(encode_utf8(self.spec_text())),
            r@.len() == alg.digest_len(),
    {
        let text = self.to_string();
        alg.digest(text.as_str().as_bytes())
    }
}

/// The text of the synthetic entry that opens the log under `alg`.
pub fn init_entry_text(alg: HashAlgorithm) -> (r: String)
    ensures
        r@ == init_text(alg),
{
    proof {
        reveal_strlit("INIT ");
        reveal_strlit("/");
    }
    let mut r = String::from_str("INIT ");
    r.append(alg.name());
    r.append("/");
    let zeros = alg.zero_digest_hex();
    r.append(zeros.as_str());
    assert(r@ =~= init_text(alg));
    r
}

/// One line of the log, with the register it was extended into and the
/// algorithm that digested it.
#[derive(Clone, Debug)]
pub struct EventRecord {
    pub algorithm: HashAlgorithm,
    pub register_index: u64,
    pub text: String,
}

impl View for EventRecord {
    type V = (HashAlgorithm, u64, Seq<char>);

    open spec fn view(&self) -> Self::V {
        (self.algorithm, self.register_index, self.text@)
    }
}

/// The digest a record contributes to its register: the digest of its
/// text's UTF-8 bytes under its own algorithm.
pub open spec fn record_digest(rec: (HashAlgorithm, u64, Seq<char>)) -> Seq<u8> {
    rec.0.spec_digest(encode_utf8(rec.2))
}

/// Register extension: the new value is the digest of the old value followed
/// by the extended digest.
pub open spec fn extend_value(register_alg: HashAlgorithm, old: Seq<u8>, digest: Seq<u8>) -> Seq<
    u8,
> {
    register_alg.spec_digest(old + digest)
}

/// The value of register `index` after extending, in order, the digests in
/// `history` that target it, starting from the all-zero value.
pub open spec fn register_value(
    register_alg: HashAlgorithm,
    history: Seq<(u64, Seq<u8>)>,
    index: u64,
) -> Seq<u8>
    decreases history.len(),
{
    if history.len() == 0 {
        register_alg.spec_zero_digest()
    } else {
        let prev = register_value(register_alg, history.drop_last(), index);
        if history.last().0 == index {
            extend_value(register_alg, prev, history.last().1)
        } else {
            prev
        }
    }
}

/// The extensions a log describes: for each record, its register and digest.
pub open spec fn log_history(records: Seq<(HashAlgorithm, u64, Seq<char>)>) -> Seq<(u64, Seq<u8>)> {
    records.map_values(|rec: (HashAlgorithm, u64, Seq<char>)| (rec.1, record_digest(rec)))
}

/// The value of register `index` that the log's records reproduce when replayed.
pub open spec fn replay(
    register_alg: HashAlgorithm,
    records: Seq<(HashAlgorithm, u64, Seq<char>)>,
    index: u64,
) -> Seq<u8> {
    register_value(register_alg, log_history(records), index)
}

/// The ordered, append-only record of the extensions made.
pub struct EventLog {
    records: Vec<EventRecord>,
}

impl View for EventLog {
    type V = Seq<(HashAlgorithm, u64, Seq<char>)>;

    closed spec fn view(&self) -> Self::V {
        self.records@.map_values(|r: EventRecord| r@)
    }
}

impl EventLog {
    /// An empty log.
    pub fn new() -> (r: Self)
        ensures
            r@ == Seq::<(HashAlgorithm, u64, Seq<char>)>::empty(),
    {
        let r = EventLog { records: Vec::new() };
        assert(r@ =~= Seq::<(HashAlgorithm, u64, Seq<char>)>::empty());
        r
    }

    /// Number of entries.
    pub fn len(&self) -> (r: usize)
        ensures
            r as nat == self@.len(),
    {
        self.records.len()
    }

    /// Appends one entry at the end.
    pub fn write_log(&mut self, record: EventRecord)
        ensures
            final(self)@ == old(self)@.push(record@),
    {
        self.records.push(record);
        assert(self@ =~= old(self)@.push(record@));
    }

    /// The text lines of the log, in order.
    pub fn lines(&self) -> (r: Vec<String>)
        ensures
            r@.len() == self@.len(),
            forall|i: int| 0 <= i < r@.len() ==> #[trigger] r@[i]@ == self@[i].2,
    {
        let mut r: Vec<String> = Vec::new();
        let mut i: usize = 0;
        while i < self.records.len()
            invariant
                i <= self.records@.len(),
                self@.len() == self.records@.len(),
                r@.len() == i,
                forall|j: int| 0 <= j < i ==> #[trigger] r@[j]@ == self@[j].2,
            decreases self.records@.len() - i,
        {
            r.push(self.records[i].text.clone());
            i = i + 1;
        }
        r
    }

    /// The value register `index` holds, as reproduced by replaying the log
    /// through the chaining function under `register_alg`.
    pub fn replay(&self, register_alg: HashAlgorithm, index: u64) -> (r: Vec<u8>)
        ensures
            r@ == replay(register_alg, self@, index),
    {
        let mut value = register_alg.zero_digest();
        let mut i: usize = 0;
        while i < self.records.len()
            invariant
                i <= self.records@.len(),
                self@.len() == self.records@.len(),
                value@ == register_value(register_alg, log_history(self@.take(i as int)), index),
            decreases self.records@.len() - i,
        {
            let rec = &self.records[i];
            proof {
                let h = log_history(self@.take(i as int + 1));
                assert(h.drop_last() =~= log_history(self@.take(i as int)));
                assert(h.last() == (self@[i as int].1, record_digest(self@[i as int])));
            }
            if rec.register_index == index {
                let text_digest = rec.algorithm.digest(rec.text.as_str().as_bytes());
                let mut d = text_digest;
                value.append(&mut d);
                value = register_alg.digest(value.as_slice());
            }
            i = i + 1;
        }
        assert(self@.take(self@.len() as int) =~= self@);
        value
    }
}

} // verus!
