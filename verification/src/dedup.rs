//! Dedup record set: the content hashes already acknowledged by the
//! collection service.
//!
//! The upload pipeline consults it before any network call and records into
//! it after an `uploaded` or `already_uploaded` outcome; the surrounding
//! binary persists it after every mutation and loads it once at startup.
use vstd::prelude::*;

use crate::strutil::{push_char, str_eq};

verus! {

/// A character that may stand unescaped inside a stored hash: anything but
/// the quote, the backslash and the control characters.
pub open spec fn plain_char(c: char) -> bool {
    c != '"' && c != '\\' && (c as u32) >= 32
}

/// A hash whose every character may stand unescaped.
pub open spec fn plain_hash(h: Seq<char>) -> bool {
    forall|i: int| 0 <= i < h.len() ==> plain_char(#[trigger] h[i])
}

/// Every hash of the sequence is plainly storable.
pub open spec fn all_plain(hs: Seq<Seq<char>>) -> bool {
    forall|i: int| 0 <= i < hs.len() ==> plain_hash(#[trigger] hs[i])
}

/// A hash between its two quotes.
pub open spec fn quoted(h: Seq<char>) -> Seq<char> {
    seq!['"'] + h + seq!['"']
}

/// The comma-separated quoted hashes of the stored document.
pub open spec fn enc_items(hs: Seq<Seq<char>>) -> Seq<char>
    decreases hs.len(),
{
    if hs.len() == 0 {
        Seq::empty()
    } else if hs.len() == 1 {
        quoted(hs[0])
    } else {
        quoted(hs[0]) + seq![','] + enc_items(hs.drop_first())
    }
}

/// The stored document: a JSON array of the hashes, in set order.
pub open spec fn enc(hs: Seq<Seq<char>>) -> Seq<char> {
    seq!['['] + enc_items(hs) + seq![']']
}

/// Split the text at its first quote: the characters before it, and those
/// after it. Nothing when no quote follows.
pub open spec fn dec_string(t: Seq<char>) -> Option<(Seq<char>, Seq<char>)>
    decreases t.len(),
{
    if t.len() == 0 {
        None
    } else if t[0] == '"' {
        Some((Seq::empty(), t.drop_first()))
    } else {
        match dec_string(t.drop_first()) {
            None => None,
            Some(p) => Some((seq![t[0]] + p.0, p.1)),
        }
    }
}

proof fn lemma_dec_string_len(t: Seq<char>)
    ensures
        dec_string(t) matches Some(p) ==> p.1.len() < t.len(),
    decreases t.len(),
{
    if t.len() > 0 && t[0] != '"' {
        lemma_dec_string_len(t.drop_first());
    }
}

/// Decode a non-empty item list followed by the closing bracket.
pub open spec fn dec_items(t: Seq<char>) -> Option<Seq<Seq<char>>>
    decreases t.len(),
    via dec_items_dec
{
    if t.len() == 0 || t[0] != '"' {
        None
    } else {
        match dec_string(t.drop_first()) {
            None => None,
            Some(p) => {
                if p.1.len() == 1 && p.1[0] == ']' {
                    Some(seq![p.0])
                } else if p.1.len() >= 2 && p.1[0] == ',' {
                    match dec_items(p.1.drop_first()) {
                        None => None,
                        Some(tail) => Some(seq![p.0] + tail),
                    }
                } else {
                    None
                }
            },
        }
    }
}

#[via_fn]
proof fn dec_items_dec(t: Seq<char>) {
    if t.len() > 0 && t[0] == '"' {
        lemma_dec_string_len(t.drop_first());
    }
}

/// Decode a stored document into its hashes, in document order. Nothing
/// when the text is not exactly a document the encoder writes.
pub open spec fn dec(s: Seq<char>) -> Option<Seq<Seq<char>>> {
    if s.len() >= 2 && s[0] == '[' {
        if s.len() == 2 && s[1] == ']' {
            Some(Seq::empty())
        } else {
            dec_items(s.drop_first())
        }
    } else {
        None
    }
}

/// The hashes kept when a decoded list is folded into a set in order,
/// dropping those already present.
pub open spec fn dedup_seq(hs: Seq<Seq<char>>) -> Seq<Seq<char>>
    decreases hs.len(),
{
    if hs.len() == 0 {
        Seq::empty()
    } else {
        let front = dedup_seq(hs.drop_last());
        if front.contains(hs.last()) {
            front
        } else {
            front.push(hs.last())
        }
    }
}

/// The persisted set of acknowledged content hashes. The mathematical view
/// is the sequence of hashes in insertion order; hashes are unique by
/// invariant.
pub struct DedupSet {
    hashes: Vec<String>,
}

/// No hash occurs twice.
pub open spec fn hashes_unique(s: Seq<Seq<char>>) -> bool {
    forall|i: int, j: int| 0 <= i < j < s.len() ==> s[i] != s[j]
}

impl View for DedupSet {
    type V = Seq<Seq<char>>;

    closed spec fn view(&self) -> Seq<Seq<char>> {
        self.hashes@.map_values(|h: String| h@)
    }
}

impl DedupSet {
    /// The set's invariant: hashes are unique.
    pub open spec fn wf(&self) -> bool {
        hashes_unique(self@)
    }

    /// An empty set, as used when no persisted record exists.
    pub fn new() -> (d: DedupSet)
        ensures
            d@ == Seq::<Seq<char>>::empty(),
            d.wf(),
    {
        let d = DedupSet { hashes: Vec::new() };
        proof {
            assert(d@ =~= Seq::<Seq<char>>::empty());
        }
        d
    }

    /// How many hashes have been acknowledged.
    pub fn len(&self) -> (n: usize)
        ensures
            n == self@.len(),
    {
        self.hashes.len()
    }

    /// Whether this content hash was already acknowledged.
    pub fn contains(&self, hash: &str) -> (r: bool)
        ensures
            r == self@.contains(hash@),
    {
        let n = self.hashes.len();
        for i in 0..n
            invariant
                n == self@.len(),
                n == self.hashes@.len(),
                forall|j: int| 0 <= j < i ==> self@[j] != hash@,
        {
            proof {
                assert(self@[i as int] == self.hashes@[i as int]@);
            }
            if str_eq(self.hashes[i].as_str(), hash) {
                return true;
            }
        }
        false
    }

    /// Record an acknowledged content hash; a hash already present is left
    /// alone. Returns whether the set grew, i.e. whether it must be
    /// persisted again.
    pub fn insert(&mut self, hash: String) -> (added: bool)
        requires
            old(self).wf(),
        ensures
            final(self).wf(),
            added == !old(self)@.contains(hash@),
            final(self)@ == if old(self)@.contains(hash@) {
                old(self)@
            } else {
                old(self)@.push(hash@)
            },
    {
        if self.contains(hash.as_str()) {
            return false;
        }
        self.hashes.push(hash);
        proof {
            assert(self@ =~= old(self)@.push(hash@));
        }
        true
    }

    /// The stored form of the set: a JSON array of its hashes. Nothing
    /// when some hash holds a quote, a backslash or a control character;
    /// such a set is not persisted and is rebuilt by future cycles.
    pub fn persist_text(&self) -> (r: Option<String>)
        ensures
            r matches Some(s) ==> all_plain(self@) && s@ == enc(self@),
            r is None ==> !all_plain(self@),
    {
        let n = self.hashes.len();
        for i in 0..n
            invariant
                n == self@.len(),
                n == self.hashes@.len(),
                forall|j: int| 0 <= j < i ==> plain_hash(#[trigger] self@[j]),
        {
            proof {
                assert(self@[i as int] == self.hashes@[i as int]@);
            }
            if !is_plain(self.hashes[i].as_str()) {
                return None;
            }
        }
        let mut out = String::new();
        push_char(&mut out, '[');
        for i in 0..n
            invariant
                n == self@.len(),
                n == self.hashes@.len(),
                out@ == seq!['['] + enc_items(self@.subrange(0, i as int)),
        {
            proof {
                assert(self@[i as int] == self.hashes@[i as int]@);
                lemma_enc_items_snoc(self@.subrange(0, i as int), self@[i as int]);
                assert(self@.subrange(0, i + 1) =~= self@.subrange(0, i as int).push(
                    self@[i as int],
                ));
            }
            if i > 0 {
                push_char(&mut out, ',');
            }
            push_char(&mut out, '"');
            out.append(self.hashes[i].as_str());
            push_char(&mut out, '"');
            proof {
                assert(out@ =~= seq!['['] + enc_items(self@.subrange(0, i + 1)));
            }
        }
        push_char(&mut out, ']');
        proof {
            assert(self@.subrange(0, n as int) =~= self@);
            assert(out@ =~= enc(self@));
        }
        Some(out)
    }

    /// Rebuild a set from a stored document: decode the hashes and fold
    /// them in, in order. Nothing when the text is not a stored document.
    pub fn from_persist_text(text: &str) -> (r: Option<DedupSet>)
        ensures
            r is Some <==> dec(text@) is Some,
            r matches Some(d) ==> d.wf() && d@ == dedup_seq(dec(text@)->Some_0),
    {
        let n = text.unicode_len();
        if n < 2 || text.get_char(0) != '[' {
            return None;
        }
        if n == 2 {
            if text.get_char(1) == ']' {
                let d = DedupSet::new();
                proof {
                    assert(dedup_seq(Seq::<Seq<char>>::empty()) =~= Seq::<Seq<char>>::empty());
                }
                return Some(d);
            }
            return None;
        }
        let tail = text.substring_char(1, n);
        proof {
            assert(tail@ =~= text@.drop_first());
        }
        let items = match parse_items(tail) {
            Some(v) => v,
            None => {
                return None;
            },
        };
        let ghost hs = dec(text@)->Some_0;
        let mut d = DedupSet::new();
        let m = items.len();
        for i in 0..m
            invariant
                m == items@.len(),
                items.deep_view() == hs,
                d.wf(),
                d@ == dedup_seq(hs.subrange(0, i as int)),
        {
            proof {
                assert(hs.subrange(0, i + 1).drop_last() =~= hs.subrange(0, i as int));
                assert(hs[i as int] == items@[i as int]@);
            }
            d.insert(items[i].clone());
        }
        proof {
            assert(hs.subrange(0, m as int) =~= hs);
        }
        Some(d)
    }
}

/// Whether every character of the string is plainly storable.
fn is_plain(s: &str) -> (r: bool)
    ensures
        r == plain_hash(s@),
{
    let n = s.unicode_len();
    for i in 0..n
        invariant
            n == s@.len(),
            forall|j: int| 0 <= j < i ==> plain_char(#[trigger] s@[j]),
    {
        let c = s.get_char(i);
        if c == '"' || c == '\\' || (c as u32) < 32 {
            return false;
        }
    }
    true
}

/// Appending one more hash extends the encoded item list with a comma and
/// the quoted hash.
proof fn lemma_enc_items_snoc(hs: Seq<Seq<char>>, h: Seq<char>)
    ensures
        hs.len() == 0 ==> enc_items(hs.push(h)) == quoted(h),
        hs.len() >= 1 ==> enc_items(hs.push(h)) == enc_items(hs) + seq![','] + quoted(h),
    decreases hs.len(),
{
    let snoc = hs.push(h);
    if hs.len() == 0 {
        assert(snoc.len() == 1);
        assert(snoc[0] == h);
    } else {
        lemma_enc_items_snoc(hs.drop_first(), h);
        assert(snoc.drop_first() =~= hs.drop_first().push(h));
        assert(snoc[0] == hs[0]);
        if hs.len() == 1 {
            assert(enc_items(snoc) == quoted(hs[0]) + seq![','] + enc_items(snoc.drop_first()));
            assert(enc_items(snoc.drop_first()) == quoted(h));
            assert(enc_items(hs) == quoted(hs[0]));
        } else {
            assert(enc_items(snoc) == quoted(hs[0]) + seq![','] + enc_items(snoc.drop_first()));
            assert(enc_items(snoc.drop_first()) == enc_items(hs.drop_first()) + seq![','] + quoted(
                h,
            ));
            assert(quoted(hs[0]) + seq![','] + (enc_items(hs.drop_first()) + seq![','] + quoted(h))
                =~= (quoted(hs[0]) + seq![','] + enc_items(hs.drop_first())) + seq![','] + quoted(
                h,
            ));
        }
    }
}

/// Reading a plainly stored hash back: the decoder splits exactly at the
/// quote the encoder wrote.
proof fn lemma_dec_string_append(h: Seq<char>, rest: Seq<char>)
    requires
        plain_hash(h),
    ensures
        dec_string(h + seq!['"'] + rest) == Some((h, rest)),
    decreases h.len(),
{
    let t = h + seq!['"'] + rest;
    if h.len() == 0 {
        assert(t[0] == '"');
        assert(t.drop_first() =~= rest);
        assert(dec_string(t)->Some_0.0 =~= h);
    } else {
        assert(plain_char(h[0]));
        assert(t[0] == h[0]);
        assert(t[0] != '"');
        assert(plain_hash(h.drop_first()));
        lemma_dec_string_append(h.drop_first(), rest);
        assert(t.drop_first() =~= h.drop_first() + seq!['"'] + rest);
        assert(dec_string(t.drop_first()) == Some((h.drop_first(), rest)));
        assert(seq![t[0]] + h.drop_first() =~= h);
    }
}

/// Decoding what the encoder wrote for a non-empty list of plain hashes
/// gives the list back.
proof fn lemma_roundtrip_items(hs: Seq<Seq<char>>)
    requires
        hs.len() >= 1,
        all_plain(hs),
    ensures
        dec_items(enc_items(hs) + seq![']']) == Some(hs),
    decreases hs.len(),
{
    let t = enc_items(hs) + seq![']'];
    assert(plain_hash(hs[0]));
    if hs.len() == 1 {
        assert(t =~= seq!['"'] + (hs[0] + seq!['"'] + seq![']']));
        assert(t[0] == '"');
        lemma_dec_string_append(hs[0], seq![']']);
        assert(t.drop_first() =~= hs[0] + seq!['"'] + seq![']']);
        let p = dec_string(t.drop_first())->Some_0;
        assert(p.1.len() == 1 && p.1[0] == ']');
        assert(seq![p.0] =~= hs);
    } else {
        let tail_enc = enc_items(hs.drop_first()) + seq![']'];
        assert(t =~= seq!['"'] + (hs[0] + seq!['"'] + (seq![','] + tail_enc)));
        assert(t[0] == '"');
        lemma_dec_string_append(hs[0], seq![','] + tail_enc);
        assert(t.drop_first() =~= hs[0] + seq!['"'] + (seq![','] + tail_enc));
        let p = dec_string(t.drop_first())->Some_0;
        assert(p.0 == hs[0]);
        assert(p.1 == seq![','] + tail_enc);
        assert(p.1.len() >= 2 && p.1[0] == ',');
        assert(!(p.1.len() == 1 && p.1[0] == ']'));
        assert(forall|i: int|
            0 <= i < hs.drop_first().len() ==> plain_hash(#[trigger] hs.drop_first()[i]));
        lemma_roundtrip_items(hs.drop_first());
        assert(p.1.drop_first() =~= tail_enc);
        assert(dec_items(p.1.drop_first()) == Some(hs.drop_first()));
        assert(seq![p.0] + hs.drop_first() =~= hs);
    }
}

/// Folding a list without repeats into a set keeps it unchanged.
proof fn lemma_dedup_seq_unique(hs: Seq<Seq<char>>)
    requires
        hashes_unique(hs),
    ensures
        dedup_seq(hs) == hs,
    decreases hs.len(),
{
    if hs.len() > 0 {
        assert(hashes_unique(hs.drop_last()));
        lemma_dedup_seq_unique(hs.drop_last());
        if hs.drop_last().contains(hs.last()) {
            let i = choose|i: int|
                0 <= i < hs.drop_last().len() && hs.drop_last()[i] == hs.last();
            assert(hs[i] == hs[hs.len() - 1]);
            assert(false);
        }
        assert(hs.drop_last().push(hs.last()) =~= hs);
    } else {
        assert(dedup_seq(hs) =~= hs);
    }
}

/// Law (dedup persistence round-trip): a well-formed set of plainly
/// storable hashes, written out with [`DedupSet::persist_text`] and read
/// back with [`DedupSet::from_persist_text`], holds exactly the hashes of
/// the original — so a hash recorded before the round trip is still
/// recognized as already uploaded, and no network call is prepared for it.
pub proof fn lemma_persist_roundtrip(d: DedupSet)
    requires
        d.wf(),
        all_plain(d@),
    ensures
        dec(enc(d@)) == Some(d@),
        dedup_seq(d@) == d@,
{
    let s = enc(d@);
    if d@.len() == 0 {
        assert(enc_items(d@) =~= Seq::<char>::empty());
        assert(s =~= seq!['[', ']']);
        assert(s.len() == 2 && s[0] == '[' && s[1] == ']');
        assert(dec(s) == Some(Seq::<Seq<char>>::empty()));
        assert(d@ =~= Seq::<Seq<char>>::empty());
    } else {
        assert(s[0] == '[');
        assert(enc_items(d@).len() >= 2) by {
            assert(quoted(d@[0]).len() >= 2);
            if d@.len() > 1 {
                assert(enc_items(d@) == quoted(d@[0]) + seq![','] + enc_items(d@.drop_first()));
            }
        }
        assert(s.len() > 2);
        lemma_roundtrip_items(d@);
        assert(s.drop_first() =~= enc_items(d@) + seq![']']);
    }
    lemma_dedup_seq_unique(d@);
}

/// Decode a non-empty item list: the executable mirror of [`dec_items`].
fn parse_items(t: &str) -> (r: Option<Vec<String>>)
    ensures
        r is Some <==> dec_items(t@) is Some,
        r matches Some(v) ==> v.deep_view() == dec_items(t@)->Some_0,
    decreases t@.len(),
{
    let n = t.unicode_len();
    if n == 0 {
        return None;
    }
    if t.get_char(0) != '"' {
        return None;
    }
    let mut j: usize = 1;
    let mut cur = String::new();
    while j < n && t.get_char(j) != '"'
        invariant
            n == t@.len(),
            1 <= j <= n,
            forall|k: int| 1 <= k < j ==> t@[k] != '"',
            cur@ == t@.subrange(1, j as int),
        decreases n - j,
    {
        push_char(&mut cur, t.get_char(j));
        proof {
            assert(cur@ =~= t@.subrange(1, j + 1));
        }
        j = j + 1;
    }
    if j == n {
        proof {
            lemma_dec_string_no_quote(t@.drop_first());
        }
        return None;
    }
    proof {
        lemma_dec_string_scan(t@.drop_first(), j - 1);
        assert(t@.drop_first().subrange(0, j - 1) =~= t@.subrange(1, j as int));
        assert(t@.drop_first().subrange(j as int, t@.drop_first().len() as int) =~= t@.subrange(
            j + 1,
            n as int,
        ));
    }
    let rest_len = n - (j + 1);
    if rest_len == 1 && t.get_char(j + 1) == ']' {
        let mut v: Vec<String> = Vec::new();
        v.push(cur);
        proof {
            assert(v.deep_view() =~= dec_items(t@)->Some_0);
        }
        return Some(v);
    }
    if rest_len >= 2 && t.get_char(j + 1) == ',' {
        let tail = t.substring_char(j + 2, n);
        proof {
            assert(tail@ =~= t@.subrange(j + 1, n as int).drop_first());
        }
        match parse_items(tail) {
            Some(mut vs) => {
                vs.insert(0, cur);
                proof {
                    assert(vs.deep_view() =~= dec_items(t@)->Some_0);
                }
                return Some(vs);
            },
            None => {
                return None;
            },
        }
    }
    None
}

/// A text with no quote at all does not decode as a string.
proof fn lemma_dec_string_no_quote(u: Seq<char>)
    requires
        forall|k: int| 0 <= k < u.len() ==> u[k] != '"',
    ensures
        dec_string(u) is None,
    decreases u.len(),
{
    if u.len() > 0 {
        assert(forall|k: int| 0 <= k < u.drop_first().len() ==> u.drop_first()[k] != '"');
        lemma_dec_string_no_quote(u.drop_first());
    }
}

/// A text whose first quote stands at position `q` decodes as the string
/// before it and the remainder after it.
proof fn lemma_dec_string_scan(u: Seq<char>, q: int)
    requires
        0 <= q < u.len(),
        u[q] == '"',
        forall|k: int| 0 <= k < q ==> u[k] != '"',
    ensures
        dec_string(u) == Some((u.subrange(0, q), u.subrange(q + 1, u.len() as int))),
    decreases q,
{
    if q == 0 {
        assert(u[0] == '"');
        assert(u.subrange(0, 0) =~= Seq::<char>::empty());
        assert(u.subrange(1, u.len() as int) =~= u.drop_first());
    } else {
        assert(u[0] != '"');
        assert(u.drop_first()[q - 1] == '"');
        assert(forall|k: int| 0 <= k < q - 1 ==> u.drop_first()[k] != '"');
        lemma_dec_string_scan(u.drop_first(), q - 1);
        assert(seq![u[0]] + u.drop_first().subrange(0, q - 1) =~= u.subrange(0, q));
        assert(u.drop_first().subrange(q as int, u.drop_first().len() as int) =~= u.subrange(
            q + 1,
            u.len() as int,
        ));
    }
}

} // verus!
