//! Labels: a small set of tagged strings (`m.type`, `m.tag`, `m.cat`,
//! `m.section`) carried in an ordered list of strings.
use vstd::prelude::*;

verus! {

/// The mathematical value of a [`Labels`].
pub struct LabelsView {
    pub msgtype: Option<Seq<char>>,
    pub tags: Seq<Seq<char>>,
    pub categories: Seq<Seq<char>>,
    pub sections: Seq<Seq<char>>,
    pub others: Seq<Seq<char>>,
}

/// Labels of a model: one optional message type, and lists of tags,
/// categories, sections and entries with no recognised prefix.
#[derive(Debug, PartialEq, Eq, Clone)]
pub struct Labels {
    pub msgtype: Option<String>,
    pub tags: Vec<String>,
    pub categories: Vec<String>,
    pub sections: Vec<String>,
    pub others: Vec<String>,
}

impl View for Labels {
    type V = LabelsView;

    open spec fn view(&self) -> LabelsView {
        LabelsView {
            msgtype: self.msgtype.deep_view(),
            tags: self.tags.deep_view(),
            categories: self.categories.deep_view(),
            sections: self.sections.deep_view(),
            others: self.others.deep_view(),
        }
    }
}

pub open spec fn type_prefix() -> Seq<char> {
    "m.type"@
}

pub open spec fn tag_prefix() -> Seq<char> {
    "m.tag"@
}

pub open spec fn cat_prefix() -> Seq<char> {
    "m.cat"@
}

pub open spec fn section_prefix() -> Seq<char> {
    "m.section"@
}

/// `<prefix>:<value>`
pub open spec fn labelled_entry(prefix: Seq<char>, value: Seq<char>) -> Seq<char> {
    prefix + seq![':'] + value
}

/// The position of the first `:` in `k` at or after `i`.
pub open spec fn colon_from(k: Seq<char>, i: int) -> Option<int>
    decreases k.len() - i,
{
    if i < 0 || i >= k.len() {
        None
    } else if k[i] == ':' {
        Some(i)
    } else {
        colon_from(k, i + 1)
    }
}

pub open spec fn first_colon(k: Seq<char>) -> Option<int> {
    colon_from(k, 0)
}

pub open spec fn empty_labels() -> LabelsView {
    LabelsView {
        msgtype: None,
        tags: Seq::empty(),
        categories: Seq::empty(),
        sections: Seq::empty(),
        others: Seq::empty(),
    }
}

pub open spec fn push_other(m: LabelsView, k: Seq<char>) -> LabelsView {
    LabelsView { others: m.others.push(k), ..m }
}

/// The effect of reading one entry: split at the first `:`; a first
/// `m.type` sets the message type, `m.tag`, `m.section` and `m.cat` append
/// to their lists, and anything else is kept verbatim among the others.
pub open spec fn add_entry(m: LabelsView, k: Seq<char>) -> LabelsView {
    match first_colon(k) {
        None => push_other(m, k),
        Some(i) => {
            let prefix = k.subrange(0, i);
            let value = k.subrange(i + 1, k.len() as int);
            if prefix == type_prefix() && m.msgtype is None {
                LabelsView { msgtype: Some(value), ..m }
            } else if prefix == tag_prefix() {
                LabelsView { tags: m.tags.push(value), ..m }
            } else if prefix == section_prefix() {
                LabelsView { sections: m.sections.push(value), ..m }
            } else if prefix == cat_prefix() {
                LabelsView { categories: m.categories.push(value), ..m }
            } else {
                push_other(m, k)
            }
        },
    }
}

/// Reads the entries of `s` in order, starting from `m`.
pub open spec fn decode_from(m: LabelsView, s: Seq<Seq<char>>) -> LabelsView
    decreases s.len(),
{
    if s.len() == 0 {
        m
    } else {
        add_entry(decode_from(m, s.drop_last()), s.last())
    }
}

pub open spec fn decode_labels(s: Seq<Seq<char>>) -> LabelsView {
    decode_from(empty_labels(), s)
}

pub open spec fn prefixed_all(prefix: Seq<char>, vs: Seq<Seq<char>>) -> Seq<Seq<char>> {
    vs.map_values(|v: Seq<char>| labelled_entry(prefix, v))
}

/// The message type first, then tags, categories, sections, and the
/// others verbatim.
pub open spec fn encode_labels(l: LabelsView) -> Seq<Seq<char>> {
    let head = match l.msgtype {
        Some(t) => seq![labelled_entry(type_prefix(), t)],
        None => Seq::empty(),
    };
    head + prefixed_all(tag_prefix(), l.tags) + prefixed_all(cat_prefix(), l.categories)
        + prefixed_all(section_prefix(), l.sections) + l.others
}

/// Whether `k`, read when a message type is or is not yet set, lands
/// among the others.
pub open spec fn decodes_as_other(k: Seq<char>, has_type: bool) -> bool {
    match first_colon(k) {
        None => true,
        Some(i) => {
            let prefix = k.subrange(0, i);
            prefix != tag_prefix() && prefix != section_prefix() && prefix != cat_prefix()
                && (prefix == type_prefix() ==> has_type)
        },
    }
}

/// Labels whose others would all be read back as others.
pub open spec fn round_trips(l: LabelsView) -> bool {
    forall|j: int| 0 <= j < l.others.len() ==> decodes_as_other(#[trigger] l.others[j], l.msgtype is Some)
}


/// The four recognised prefixes hold no `:` and are pairwise distinct.
proof fn lemma_prefixes()
    ensures
        type_prefix().len() == 6,
        tag_prefix().len() == 5,
        cat_prefix().len() == 5,
        section_prefix().len() == 9,
        forall|j: int| 0 <= j < 6 ==> type_prefix()[j] != ':',
        forall|j: int| 0 <= j < 5 ==> tag_prefix()[j] != ':',
        forall|j: int| 0 <= j < 5 ==> cat_prefix()[j] != ':',
        forall|j: int| 0 <= j < 9 ==> section_prefix()[j] != ':',
        tag_prefix() != cat_prefix(),
{
    reveal_strlit("m.type");
    reveal_strlit("m.tag");
    reveal_strlit("m.cat");
    reveal_strlit("m.section");
    assert(tag_prefix()[2] != cat_prefix()[2]);
}

proof fn lemma_colon_from(k: Seq<char>, i: int, c: int)
    requires
        0 <= i <= c < k.len(),
        k[c] == ':',
        forall|j: int| i <= j < c ==> k[j] != ':',
    ensures
        colon_from(k, i) == Some(c),
    decreases c - i,
{
    if i < c {
        lemma_colon_from(k, i + 1, c);
    }
}

/// `<prefix>:<value>` splits back into `prefix` and `value` when the
/// prefix holds no `:`.
proof fn lemma_split_labelled(p: Seq<char>, v: Seq<char>)
    requires
        forall|j: int| 0 <= j < p.len() ==> p[j] != ':',
    ensures
        first_colon(labelled_entry(p, v)) == Some(p.len() as int),
        labelled_entry(p, v).subrange(0, p.len() as int) == p,
        labelled_entry(p, v).subrange(p.len() + 1int, labelled_entry(p, v).len() as int) == v,
{
    let k = labelled_entry(p, v);
    lemma_colon_from(k, 0, p.len() as int);
    assert(k.subrange(0, p.len() as int) =~= p);
    assert(k.subrange(p.len() + 1int, k.len() as int) =~= v);
}

/// Appends `vs` to the list that `prefix` names.
pub open spec fn append_field(m: LabelsView, prefix: Seq<char>, vs: Seq<Seq<char>>) -> LabelsView {
    if prefix == tag_prefix() {
        LabelsView { tags: m.tags + vs, ..m }
    } else if prefix == cat_prefix() {
        LabelsView { categories: m.categories + vs, ..m }
    } else {
        LabelsView { sections: m.sections + vs, ..m }
    }
}

proof fn lemma_decode_prefixed(m: LabelsView, prefix: Seq<char>, vs: Seq<Seq<char>>)
    requires
        prefix == tag_prefix() || prefix == cat_prefix() || prefix == section_prefix(),
    ensures
        decode_from(m, prefixed_all(prefix, vs)) == append_field(m, prefix, vs),
    decreases vs.len(),
{
    lemma_prefixes();
    let s = prefixed_all(prefix, vs);
    if vs.len() == 0 {
        assert(m.tags + vs =~= m.tags);
        assert(m.categories + vs =~= m.categories);
        assert(m.sections + vs =~= m.sections);
    } else {
        let init = vs.drop_last();
        assert(s.drop_last() =~= prefixed_all(prefix, init));
        lemma_decode_prefixed(m, prefix, init);
        lemma_split_labelled(prefix, vs.last());
        assert(m.tags + init.push(vs.last()) =~= (m.tags + init).push(vs.last()));
        assert(m.categories + init.push(vs.last()) =~= (m.categories + init).push(vs.last()));
        assert(m.sections + init.push(vs.last()) =~= (m.sections + init).push(vs.last()));
        assert(init.push(vs.last()) =~= vs);
    }
}

proof fn lemma_decode_others(m: LabelsView, os: Seq<Seq<char>>)
    requires
        forall|j: int| 0 <= j < os.len() ==> (decodes_as_other(#[trigger] os[j], m.msgtype is Some)),
    ensures
        decode_from(m, os) == (LabelsView { others: m.others + os, ..m }),
    decreases os.len(),
{
    if os.len() == 0 {
        assert(m.others + os =~= m.others);
    } else {
        let init = os.drop_last();
        lemma_decode_others(m, init);
        assert(decodes_as_other(os[os.len() - 1], m.msgtype is Some));
        assert(m.others + os =~= (m.others + init).push(os.last()));
    }
}

proof fn lemma_decode_concat(m: LabelsView, a: Seq<Seq<char>>, b: Seq<Seq<char>>)
    ensures
        decode_from(m, a + b) == decode_from(decode_from(m, a), b),
    decreases b.len(),
{
    if b.len() == 0 {
        assert(a + b =~= a);
    } else {
        assert((a + b).drop_last() =~= a + b.drop_last());
        lemma_decode_concat(m, a, b.drop_last());
    }
}

/// Decoding what [`Labels::serialize`] produced gives the labels back,
/// for every value whose others would be read back as others.
pub proof fn lemma_round_trip(l: LabelsView)
    requires
        round_trips(l),
    ensures
        decode_labels(encode_labels(l)) == l,
{
    lemma_prefixes();
    let head: Seq<Seq<char>> = match l.msgtype {
        Some(t) => seq![labelled_entry(type_prefix(), t)],
        None => Seq::empty(),
    };
    let tags = prefixed_all(tag_prefix(), l.tags);
    let cats = prefixed_all(cat_prefix(), l.categories);
    let secs = prefixed_all(section_prefix(), l.sections);
    let e = empty_labels();
    let m0 = LabelsView { msgtype: l.msgtype, ..e };
    match l.msgtype {
        Some(t) => {
            lemma_split_labelled(type_prefix(), t);
            assert(head.drop_last() =~= Seq::<Seq<char>>::empty());
            assert(decode_from(e, head.drop_last()) == e);
            assert(head.last() == labelled_entry(type_prefix(), t));
        },
        None => {
            assert(decode_from(e, head) == e);
        },
    }
    assert(decode_from(e, head) == m0);
    lemma_decode_concat(e, head, tags);
    lemma_decode_prefixed(m0, tag_prefix(), l.tags);
    let m1 = append_field(m0, tag_prefix(), l.tags);
    lemma_decode_concat(e, head + tags, cats);
    lemma_decode_prefixed(m1, cat_prefix(), l.categories);
    let m2 = append_field(m1, cat_prefix(), l.categories);
    lemma_decode_concat(e, head + tags + cats, secs);
    lemma_decode_prefixed(m2, section_prefix(), l.sections);
    let m3 = append_field(m2, section_prefix(), l.sections);
    lemma_decode_concat(e, head + tags + cats + secs, l.others);
    lemma_decode_others(m3, l.others);
    assert(Seq::<Seq<char>>::empty() + l.tags =~= l.tags);
    assert(Seq::<Seq<char>>::empty() + l.categories =~= l.categories);
    assert(Seq::<Seq<char>>::empty() + l.sections =~= l.sections);
    assert(Seq::<Seq<char>>::empty() + l.others =~= l.others);
}

/// Whether `k` is an `m.type:` entry.
pub open spec fn is_type_entry(k: Seq<char>) -> bool {
    match first_colon(k) {
        Some(i) => k.subrange(0, i) == type_prefix(),
        None => false,
    }
}

proof fn lemma_decode_step(s: Seq<Seq<char>>, n: int)
    requires
        0 <= n < s.len(),
    ensures
        decode_labels(s.take(n + 1)) == add_entry(decode_labels(s.take(n)), s[n]),
{
    assert(s.take(n + 1).drop_last() =~= s.take(n));
}

proof fn lemma_no_type_yet(s: Seq<Seq<char>>, n: int)
    requires
        0 <= n <= s.len(),
        forall|k: int| 0 <= k < n ==> !is_type_entry(#[trigger] s[k]),
    ensures
        decode_labels(s.take(n)).msgtype is None,
    decreases n,
{
    if n == 0 {
        assert(s.take(0) =~= Seq::<Seq<char>>::empty());
    } else {
        lemma_no_type_yet(s, n - 1);
        lemma_decode_step(s, n - 1);
        assert(!is_type_entry(s[n - 1]));
    }
}

/// Once the message type is set, reading further entries keeps it and
/// only appends to the others.
proof fn lemma_type_kept(s: Seq<Seq<char>>, from: int, n: int)
    requires
        0 <= from <= n <= s.len(),
        decode_labels(s.take(from)).msgtype is Some,
    ensures
        decode_labels(s.take(n)).msgtype == decode_labels(s.take(from)).msgtype,
        decode_labels(s.take(from)).others.len() <= decode_labels(s.take(n)).others.len(),
        decode_labels(s.take(n)).others.subrange(0, decode_labels(s.take(from)).others.len() as int)
            == decode_labels(s.take(from)).others,
    decreases n - from,
{
    let start = decode_labels(s.take(from)).others;
    if n == from {
        assert(start.subrange(0, start.len() as int) =~= start);
    } else {
        lemma_type_kept(s, from, n - 1);
        lemma_decode_step(s, n - 1);
        let before = decode_labels(s.take(n - 1)).others;
        let after = decode_labels(s.take(n)).others;
        if after != before {
            assert(after == before.push(s[n - 1]));
            assert(after.subrange(0, start.len() as int) =~= before.subrange(0, start.len() as int));
        }
    }
}

/// In a list of entries, the first `m.type:` entry sets the message type,
/// and a later `m.type:` entry is kept verbatim among the others.
pub proof fn lemma_first_type_wins(s: Seq<Seq<char>>, i: int, j: int, a: Seq<char>, b: Seq<char>)
    requires
        0 <= i < j < s.len(),
        s[i] == labelled_entry(type_prefix(), a),
        s[j] == labelled_entry(type_prefix(), b),
        forall|k: int| 0 <= k < i ==> !is_type_entry(#[trigger] s[k]),
    ensures
        decode_labels(s).msgtype == Some(a),
        decode_labels(s).others.contains(s[j]),
{
    lemma_prefixes();
    lemma_no_type_yet(s, i);
    lemma_decode_step(s, i);
    lemma_split_labelled(type_prefix(), a);
    lemma_type_kept(s, i + 1, j);
    lemma_decode_step(s, j);
    lemma_split_labelled(type_prefix(), b);
    let at_j = decode_labels(s.take(j)).others;
    assert(decode_labels(s.take(j + 1)).others == at_j.push(s[j]));
    lemma_type_kept(s, j + 1, s.len() as int);
    assert(s.take(s.len() as int) =~= s);
    let fin = decode_labels(s).others;
    assert(fin.subrange(0, at_j.len() + 1int) == at_j.push(s[j]));
    assert(fin[at_j.len() as int] == fin.subrange(0, at_j.len() + 1int)[at_j.len() as int]);
    assert(fin[at_j.len() as int] == s[j]);
}

/// The position of the first `:` in `s`, if any.
fn find_colon(s: &str) -> (r: Option<usize>)
    ensures
        r matches Some(i) ==> first_colon(s@) == Some(i as int) && i < s@.len(),
        r is None ==> first_colon(s@) is None,
{
    let n = s.unicode_len();
    let mut i: usize = 0;
    while i < n
        invariant
            n == s@.len(),
            0 <= i <= n,
            colon_from(s@, 0) == colon_from(s@, i as int),
        decreases n - i,
    {
        if s.get_char(i) == ':' {
            return Some(i);
        }
        i = i + 1;
    }
    None
}

/// `<prefix>:<value>`
fn make_labelled(prefix: &str, value: &String) -> (r: String)
    ensures
        r@ == labelled_entry(prefix@, value@),
{
    let mut r = prefix.to_owned();
    r.append(":");
    r.append(value.as_str());
    proof {
        reveal_strlit(":");
    }
    r
}

/// Appends `<prefix>:<v>` for each `v` of `values`, in order.
fn append_prefixed(out: &mut Vec<String>, prefix: &str, values: &Vec<String>)
    ensures
        final(out).deep_view() == old(out).deep_view() + prefixed_all(prefix@, values.deep_view()),
{
    let ghost start = out.deep_view();
    let mut i: usize = 0;
    while i < values.len()
        invariant
            0 <= i <= values.len(),
            out.deep_view() == start + prefixed_all(prefix@, values.deep_view().take(i as int)),
        decreases values.len() - i,
    {
        let e = make_labelled(prefix, &values[i]);
        let ghost before = out.deep_view();
        out.push(e);
        proof {
            assert(out.deep_view() =~= before.push(e@));
            assert(values.deep_view().take(i + 1) =~= values.deep_view().take(i as int).push(
                values[i as int]@,
            ));
            assert(out.deep_view() =~= start + prefixed_all(
                prefix@,
                values.deep_view().take(i + 1),
            ));
        }
        i = i + 1;
    }
    proof {
        assert(values.deep_view().take(i as int) =~= values.deep_view());
    }
}

/// Appends a copy of each entry of `values`, in order.
fn append_verbatim(out: &mut Vec<String>, values: &Vec<String>)
    ensures
        final(out).deep_view() == old(out).deep_view() + values.deep_view(),
{
    let ghost start = out.deep_view();
    let mut i: usize = 0;
    while i < values.len()
        invariant
            0 <= i <= values.len(),
            out.deep_view() == start + values.deep_view().take(i as int),
        decreases values.len() - i,
    {
        let e = values[i].clone();
        let ghost before = out.deep_view();
        out.push(e);
        proof {
            assert(out.deep_view() =~= before.push(e@));
            assert(out.deep_view() =~= start + values.deep_view().take(i + 1));
        }
        i = i + 1;
    }
    proof {
        assert(values.deep_view().take(i as int) =~= values.deep_view());
    }
}

impl Labels {
    /// Labels with nothing set.
    pub fn new() -> (r: Labels)
        ensures
            r@ == empty_labels(),
    {
        let r = Labels {
            msgtype: None,
            tags: Vec::new(),
            categories: Vec::new(),
            sections: Vec::new(),
            others: Vec::new(),
        };
        proof {
            assert(r@.tags =~= Seq::<Seq<char>>::empty());
            assert(r@.categories =~= Seq::<Seq<char>>::empty());
            assert(r@.sections =~= Seq::<Seq<char>>::empty());
            assert(r@.others =~= Seq::<Seq<char>>::empty());
        }
        r
    }

    /// Encodes the labels as a list of strings: `m.type:<t>` first if a
    /// message type is set, then `m.tag:`, `m.cat:` and `m.section:` entries,
    /// then the others verbatim.
    pub fn serialize(&self) -> (r: Vec<String>)
        ensures
            r.deep_view() == encode_labels(self@),
    {
        let mut out: Vec<String> = Vec::new();
        proof {
            assert(out.deep_view() =~= Seq::<Seq<char>>::empty());
        }
        match &self.msgtype {
            Some(t) => {
                let e = make_labelled("m.type", t);
                out.push(e);
            },
            None => {},
        }
        let ghost head = out.deep_view();
        proof {
            assert(head =~= match self@.msgtype {
                Some(t) => seq![labelled_entry(type_prefix(), t)],
                None => Seq::<Seq<char>>::empty(),
            });
        }
        append_prefixed(&mut out, "m.tag", &self.tags);
        append_prefixed(&mut out, "m.cat", &self.categories);
        append_prefixed(&mut out, "m.section", &self.sections);
        append_verbatim(&mut out, &self.others);
        out
    }

    /// Reads one entry into the labels.
    pub fn add_entry(&mut self, key: String)
        ensures
            final(self)@ == add_entry(old(self)@, key@),
    {
        let ghost m = self@;
        match find_colon(key.as_str()) {
            None => {
                self.others.push(key);
                proof {
                    assert(self@.others =~= m.others.push(key@));
                }
            },
            Some(i) => {
                let n = key.as_str().unicode_len();
                let prefix = key.as_str().substring_char(0, i).to_owned();
                let value = key.as_str().substring_char(i + 1, n).to_owned();
                if prefix == "m.type".to_owned() && self.msgtype.is_none() {
                    self.msgtype = Some(value);
                } else if prefix == "m.tag".to_owned() {
                    self.tags.push(value);
                    proof {
                        assert(self@.tags =~= m.tags.push(value@));
                    }
                } else if prefix == "m.section".to_owned() {
                    self.sections.push(value);
                    proof {
                        assert(self@.sections =~= m.sections.push(value@));
                    }
                } else if prefix == "m.cat".to_owned() {
                    self.categories.push(value);
                    proof {
                        assert(self@.categories =~= m.categories.push(value@));
                    }
                } else {
                    self.others.push(key);
                    proof {
                        assert(self@.others =~= m.others.push(key@));
                    }
                }
            },
        }
    }

    /// Decodes a list of strings into labels.
    pub fn deserialize(entries: &Vec<String>) -> (r: Labels)
        ensures
            r@ == decode_labels(entries.deep_view()),
    {
        LabelsVisitor.visit_seq(entries)
    }
}

impl Default for Labels {
    fn default() -> (r: Labels)
        ensures
            r@ == empty_labels(),
    {
        Labels::new()
    }
}

/// Reads labels entry by entry.
pub struct LabelsVisitor;

impl LabelsVisitor {
    /// What the visitor reads.
    pub fn expecting(&self) -> (r: &'static str)
        ensures
            r@ == "List of Strings"@,
    {
        "List of Strings"
    }

    /// Reads the entries in order, each as [`Labels::add_entry`] does.
    pub fn visit_seq(self, entries: &Vec<String>) -> (r: Labels)
        ensures
            r@ == decode_labels(entries.deep_view()),
    {
        let mut me = Labels::new();
        let mut i: usize = 0;
        while i < entries.len()
            invariant
                0 <= i <= entries.len(),
                me@ == decode_labels(entries.deep_view().take(i as int)),
            decreases entries.len() - i,
        {
            me.add_entry(entries[i].clone());
            proof {
                assert(entries.deep_view().take(i + 1).drop_last() =~= entries.deep_view().take(
                    i as int,
                ));
            }
            i = i + 1;
        }
        proof {
            assert(entries.deep_view().take(i as int) =~= entries.deep_view());
        }
        me
    }
}

} // verus!
