//! Parsing of VapourSynth plugin function signatures such as
//! `"clip:vnode;width:int:opt;color:float[]:opt;"` into the type of each
//! named parameter.

use vstd::prelude::*;
use crate::text::{chars_of, substring};

verus! {

/// The pieces of `s` between occurrences of `sep`, as Rust's `str::split`
/// yields them: always at least one piece, possibly empty ones.
pub open spec fn split_by(s: Seq<char>, sep: char) -> Seq<Seq<char>>
    decreases s.len(),
{
    if s.len() == 0 {
        seq![Seq::<char>::empty()]
    } else {
        let prev = split_by(s.drop_last(), sep);
        if s.last() == sep {
            prev.push(Seq::<char>::empty())
        } else {
            prev.update(prev.len() - 1, prev.last().push(s.last()))
        }
    }
}

/// `t` with every trailing `"[]"` removed, as `trim_end_matches("[]")` does.
pub open spec fn trim_brackets(t: Seq<char>) -> Seq<char>
    decreases t.len(),
{
    if t.len() >= 2 && t[t.len() - 2] == '[' && t[t.len() - 1] == ']' {
        trim_brackets(t.take(t.len() - 2))
    } else {
        t
    }
}

/// One parameter description `name:type[:flags]`: its name and its type
/// without array brackets; `None` when it has no type.
pub open spec fn parse_param(p: Seq<char>) -> Option<(Seq<char>, Seq<char>)> {
    let pieces = split_by(p, ':');
    if pieces.len() >= 2 {
        Some((pieces[0], trim_brackets(pieces[1])))
    } else {
        None
    }
}

/// The (name, type) entries of the non-empty parameter descriptions among
/// `parts`, in order.
pub open spec fn entries_of(parts: Seq<Seq<char>>) -> Seq<(Seq<char>, Seq<char>)>
    decreases parts.len(),
{
    if parts.len() == 0 {
        Seq::empty()
    } else {
        let prev = entries_of(parts.drop_last());
        let p = parts.last();
        if p.len() > 0 && parse_param(p) is Some {
            prev.push(parse_param(p).unwrap())
        } else {
            prev
        }
    }
}

/// The (name, type) entries a signature describes, in order.
pub open spec fn signature_entries(sig: Seq<char>) -> Seq<(Seq<char>, Seq<char>)> {
    entries_of(split_by(sig, ';'))
}

/// Entries collected into a map; a later entry for a name replaces an
/// earlier one.
pub open spec fn entries_map(es: Seq<(Seq<char>, Seq<char>)>) -> Map<Seq<char>, Seq<char>>
    decreases es.len(),
{
    if es.len() == 0 {
        Map::empty()
    } else {
        entries_map(es.drop_last()).insert(es.last().0, es.last().1)
    }
}

/// The parameter types a signature declares, by name.
pub open spec fn signature_map(sig: Seq<char>) -> Map<Seq<char>, Seq<char>> {
    entries_map(signature_entries(sig))
}

proof fn lemma_split_nonempty(s: Seq<char>, sep: char)
    ensures
        split_by(s, sep).len() >= 1,
    decreases s.len(),
{
    if s.len() > 0 {
        lemma_split_nonempty(s.drop_last(), sep);
    }
}

proof fn lemma_entries_map_last(es: Seq<(Seq<char>, Seq<char>)>, n: Seq<char>, i: int)
    requires
        0 <= i < es.len(),
        es[i].0 == n,
        forall|j: int| i < j < es.len() ==> es[j].0 != n,
    ensures
        entries_map(es).contains_key(n),
        entries_map(es)[n] == es[i].1,
    decreases es.len(),
{
    if i < es.len() - 1 {
        lemma_entries_map_last(es.drop_last(), n, i);
    }
}

proof fn lemma_entries_map_absent(es: Seq<(Seq<char>, Seq<char>)>, n: Seq<char>)
    requires
        forall|j: int| 0 <= j < es.len() ==> es[j].0 != n,
    ensures
        !entries_map(es).contains_key(n),
    decreases es.len(),
{
    if es.len() > 0 {
        lemma_entries_map_absent(es.drop_last(), n);
    }
}

/// Splits `chars[from..to]` at every `sep`: the ranges of the pieces, in
/// order.
fn split_ranges(chars: &Vec<char>, from: usize, to: usize, sep: char) -> (r: Vec<(usize, usize)>)
    requires
        from <= to <= chars@.len(),
    ensures
        r@.len() == split_by(chars@.subrange(from as int, to as int), sep).len(),
        forall|k: int|
            0 <= k < r@.len() ==> from <= #[trigger] r@[k].0 <= r@[k].1 <= to
                && chars@.subrange(r@[k].0 as int, r@[k].1 as int) == split_by(
                chars@.subrange(from as int, to as int),
                sep,
            )[k],
{
    let mut r: Vec<(usize, usize)> = Vec::new();
    let mut start = from;
    let mut i = from;
    proof {
        assert(chars@.subrange(from as int, from as int) =~= Seq::<char>::empty());
        assert(chars@.subrange(start as int, i as int) =~= Seq::<char>::empty());
    }
    while i < to
        invariant
            from <= start <= i <= to <= chars@.len(),
            split_by(chars@.subrange(from as int, i as int), sep).len() == r@.len() + 1,
            split_by(chars@.subrange(from as int, i as int), sep)[r@.len() as int]
                == chars@.subrange(start as int, i as int),
            forall|k: int|
                0 <= k < r@.len() ==> from <= #[trigger] r@[k].0 <= r@[k].1 <= start
                    && chars@.subrange(r@[k].0 as int, r@[k].1 as int) == split_by(
                    chars@.subrange(from as int, i as int),
                    sep,
                )[k],
        decreases to - i,
    {
        let ghost before = chars@.subrange(from as int, i as int);
        let ghost after = chars@.subrange(from as int, i + 1);
        proof {
            assert(after.drop_last() =~= before);
            assert(after.last() == chars@[i as int]);
            lemma_split_nonempty(before, sep);
        }
        if chars[i] == sep {
            r.push((start, i));
            start = i + 1;
            assert(chars@.subrange(start as int, i + 1) =~= Seq::<char>::empty());
        } else {
            assert(chars@.subrange(start as int, i + 1) =~= chars@.subrange(
                start as int,
                i as int,
            ).push(chars@[i as int]));
        }
        i = i + 1;
    }
    r.push((start, to));
    r
}

/// Drops every trailing `"[]"` from `chars[from..to]`: the new end.
fn trim_brackets_end(chars: &Vec<char>, from: usize, to: usize) -> (end: usize)
    requires
        from <= to <= chars@.len(),
    ensures
        from <= end <= to,
        chars@.subrange(from as int, end as int) == trim_brackets(
            chars@.subrange(from as int, to as int),
        ),
{
    let mut end = to;
    while end - from >= 2 && chars[end - 2] == '[' && chars[end - 1] == ']'
        invariant
            from <= end <= to <= chars@.len(),
            trim_brackets(chars@.subrange(from as int, end as int)) == trim_brackets(
                chars@.subrange(from as int, to as int),
            ),
        decreases end,
    {
        let ghost t = chars@.subrange(from as int, end as int);
        assert(t.take(t.len() - 2) =~= chars@.subrange(from as int, end - 2));
        end = end - 2;
    }
    end
}

/// The parameter types a plugin function's signature declares, by name.
pub struct SignatureTypes {
    entries: Vec<(String, String)>,
}

impl SignatureTypes {
    /// The (name, type) entries, in signature order.
    pub closed spec fn entries(&self) -> Seq<(Seq<char>, Seq<char>)> {
        Seq::new(self.entries@.len(), |i: int| (self.entries@[i].0@, self.entries@[i].1@))
    }

    /// The types by name; a later entry for a name wins.
    pub open spec fn spec_map(&self) -> Map<Seq<char>, Seq<char>> {
        entries_map(self.entries())
    }

    /// Parses a signature `name:type[:flags];...`: every non-empty
    /// description with a type contributes its name and its type stripped of
    /// trailing `[]`.
    pub fn parse(signature: &str) -> (r: SignatureTypes)
        ensures
            r.entries() == signature_entries(signature@),
            r.spec_map() == signature_map(signature@),
    {
        let chars = chars_of(signature);
        let parts = split_ranges(&chars, 0, chars.len(), ';');
        let ghost pieces = split_by(signature@, ';');
        assert(chars@.subrange(0, chars@.len() as int) =~= signature@);
        let mut entries: Vec<(String, String)> = Vec::new();
        let mut k: usize = 0;
        while k < parts.len()
            invariant
                chars@ == signature@,
                k <= parts@.len(),
                parts@.len() == pieces.len(),
                pieces == split_by(signature@, ';'),
                forall|j: int|
                    0 <= j < parts@.len() ==> 0 <= #[trigger] parts@[j].0 <= parts@[j].1
                        <= chars@.len() && chars@.subrange(parts@[j].0 as int, parts@[j].1 as int)
                        == pieces[j],
                Seq::new(entries@.len(), |i: int| (entries@[i].0@, entries@[i].1@))
                    == entries_of(pieces.take(k as int)),
            decreases parts@.len() - k,
        {
            let (from, to) = parts[k];
            let ghost part = pieces[k as int];
            let ghost prev = Seq::new(entries@.len(), |i: int| (entries@[i].0@, entries@[i].1@));
            assert(pieces.take(k + 1).drop_last() =~= pieces.take(k as int));
            assert(pieces.take(k + 1).last() == part);
            if from < to {
                let fields = split_ranges(&chars, from, to, ':');
                assert(chars@.subrange(from as int, to as int) == part);
                if fields.len() >= 2 {
                    let (n0, n1) = fields[0];
                    let (t0, t1) = fields[1];
                    let t_end = trim_brackets_end(&chars, t0, t1);
                    let name = substring(signature, n0, n1);
                    let ty = substring(signature, t0, t_end);
                    entries.push((name, ty));
                    assert(parse_param(part) == Some((name@, ty@)));
                    assert(Seq::new(entries@.len(), |i: int| (entries@[i].0@, entries@[i].1@))
                        =~= prev.push((name@, ty@)));
                }
            }
            k = k + 1;
        }
        assert(pieces.take(parts@.len() as int) =~= pieces);
        SignatureTypes { entries }
    }

    /// The type declared for `name`, if any (the last declaration wins).
    pub fn get(&self, name: &str) -> (r: Option<String>)
        ensures
            match r {
                Some(t) => self.spec_map().contains_key(name@) && self.spec_map()[name@] == t@,
                None => !self.spec_map().contains_key(name@),
            },
    {
        let key = name.to_string();
        let mut i = self.entries.len();
        while i > 0
            invariant
                i <= self.entries@.len(),
                key@ == name@,
                forall|j: int| i <= j < self.entries@.len() ==> self.entries()[j].0 != name@,
            decreases i,
        {
            i = i - 1;
            if self.entries[i].0 == key {
                proof {
                    lemma_entries_map_last(self.entries(), name@, i as int);
                }
                return Some(self.entries[i].1.clone());
            }
        }
        proof {
            lemma_entries_map_absent(self.entries(), name@);
        }
        None
    }

    /// Whether `name` is declared a `float` parameter: integers passed to it
    /// are converted to floating point.
    pub fn wants_float(&self, name: &str) -> (b: bool)
        ensures
            b == (self.spec_map().contains_key(name@) && self.spec_map()[name@] == "float"@),
    {
        match self.get(name) {
            Some(t) => {
                let float = "float".to_string();
                t == float
            },
            None => false,
        }
    }

    /// Number of entries.
    pub fn len(&self) -> (n: usize)
        ensures
            n == self.entries().len(),
    {
        self.entries.len()
    }
}

} // verus!
