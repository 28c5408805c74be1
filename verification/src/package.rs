//! Names of packages and variants of their outputs.

use vstd::prelude::*;
use vstd::string::*;

use crate::text;

verus! {

/// The name of a conda package: as it was written, and in the form that names
/// are compared by.
#[derive(Debug)]
pub struct PackageName {
    pub source: String,
    pub normalized: String,
}

/// The name of a conda package, in terms of characters.
pub struct NameModel {
    pub source: Seq<char>,
    pub normalized: Seq<char>,
}

impl DeepView for PackageName {
    type V = NameModel;

    open spec fn deep_view(&self) -> NameModel {
        NameModel { source: self.source@, normalized: self.normalized@ }
    }
}

impl PackageName {
    /// A name that is written in its normalized form.
    pub fn new_unchecked(name: &str) -> (r: PackageName)
        ensures
            r.source@ == name@,
            r.normalized@ == name@,
    {
        PackageName { source: name.to_owned(), normalized: name.to_owned() }
    }

    /// The name as it was written.
    pub fn as_source(&self) -> (r: &str)
        ensures
            r@ == self.source@,
    {
        self.source.as_str()
    }

    /// The name in its normalized form.
    pub fn as_normalized(&self) -> (r: &str)
        ensures
            r@ == self.normalized@,
    {
        self.normalized.as_str()
    }

    /// Whether both name the same package.
    pub fn same_as(&self, other: &PackageName) -> (r: bool)
        ensures
            r == (self.normalized@ == other.normalized@),
    {
        text::str_eq(self.normalized.as_str(), other.normalized.as_str())
    }
}

impl Clone for PackageName {
    fn clone(&self) -> (r: PackageName)
        ensures
            r == *self,
    {
        PackageName { source: self.source.clone(), normalized: self.normalized.clone() }
    }
}

/// The value of a variant, as it is printed.
#[derive(Debug)]
pub struct VariantValue {
    pub text: String,
}

impl Clone for VariantValue {
    fn clone(&self) -> (r: VariantValue)
        ensures
            r == *self,
    {
        VariantValue { text: self.text.clone() }
    }
}

/// Variants by key, in ascending order of their keys.
#[derive(Debug)]
pub struct Variants {
    entries: Vec<(String, VariantValue)>,
}

impl View for Variants {
    type V = Seq<(Seq<char>, Seq<char>)>;

    closed spec fn view(&self) -> Seq<(Seq<char>, Seq<char>)> {
        seen(self.entries@)
    }
}

/// Whether the keys of `entries` ascend strictly, so that none occurs twice.
pub open spec fn ascending(entries: Seq<(Seq<char>, Seq<char>)>) -> bool {
    forall|i: int, j: int|
        0 <= i < j < entries.len() ==> text::text_before(
            (#[trigger] entries[i]).0,
            (#[trigger] entries[j]).0,
        )
}

/// The keys and values of `entries`, in terms of characters.
spec fn seen(entries: Seq<(String, VariantValue)>) -> Seq<(Seq<char>, Seq<char>)> {
    entries.map_values(|entry: (String, VariantValue)| (entry.0@, entry.1.text@))
}

impl Variants {
    #[verifier::type_invariant]
    spec fn is_ordered(self) -> bool {
        ascending(seen(self.entries@))
    }

    /// No variants.
    pub fn new() -> (r: Variants)
        ensures
            r@ == Seq::<(Seq<char>, Seq<char>)>::empty(),
    {
        let r = Variants { entries: Vec::new() };
        assert(r@ =~= Seq::<(Seq<char>, Seq<char>)>::empty());
        r
    }

    /// The variants, in ascending order of their keys.
    pub fn entries(&self) -> (r: &Vec<(String, VariantValue)>)
        ensures
            r@.len() == self@.len(),
            forall|i: int|
                0 <= i < r@.len() ==> (#[trigger] r@[i]).0@ == self@[i].0 && r@[i].1.text@
                    == self@[i].1,
            ascending(self@),
    {
        proof {
            use_type_invariant(self);
        }
        &self.entries
    }

    /// Whether there are no variants.
    pub fn is_empty(&self) -> (r: bool)
        ensures
            r == (self@.len() == 0),
    {
        self.entries.len() == 0
    }

    /// Gives `key` the value `value`, in the place of any that it had.
    pub fn insert(&mut self, key: String, value: VariantValue)
        ensures
            ascending(final(self)@),
            forall|k: Seq<char>, v: Seq<char>|
                #[trigger] final(self)@.contains((k, v)) <==> if k == key@ {
                    v == value.text@
                } else {
                    old(self)@.contains((k, v))
                },
    {
        let ghost before = self@;
        let ghost pair = (key@, value.text@);
        proof {
            use_type_invariant(&*self);
        }
        let mut entries: Vec<(String, VariantValue)> = Vec::new();
        std::mem::swap(&mut entries, &mut self.entries);
        let mut at: usize = 0;
        while at < entries.len() && text::comes_before(entries[at].0.as_str(), key.as_str())
            invariant
                seen(entries@) == before,
                at <= entries.len(),
                forall|i: int|
                    0 <= i < at ==> text::text_before((#[trigger] before[i]).0, key@),
            decreases entries.len() - at,
        {
            assert(before[at as int].0 == entries@[at as int].0@);
            at += 1;
        }
        if at < entries.len() && text::str_eq(entries[at].0.as_str(), key.as_str()) {
            assert(before[at as int].0 == key@);
            entries.set(at, (key, value));
            assert(seen(entries@) =~= before.update(at as int, pair));
            proof {
                updating_keeps_the_rest(before, at as int, pair);
            }
        } else {
            proof {
                if at < entries.len() {
                    assert(before[at as int].0 == entries@[at as int].0@);
                    text::text_order_is_total(before[at as int].0, key@);
                }
            }
            entries.insert(at, (key, value));
            assert(seen(entries@) =~= before.insert(at as int, pair));
            proof {
                inserting_keeps_the_rest(before, at as int, pair);
            }
        }
        self.entries = entries;
    }
}

proof fn updating_keeps_the_rest(
    entries: Seq<(Seq<char>, Seq<char>)>,
    at: int,
    pair: (Seq<char>, Seq<char>),
)
    requires
        ascending(entries),
        0 <= at < entries.len(),
        entries[at].0 == pair.0,
    ensures
        ascending(entries.update(at, pair)),
        forall|k: Seq<char>, v: Seq<char>|
            #[trigger] entries.update(at, pair).contains((k, v)) <==> if k == pair.0 {
                v == pair.1
            } else {
                entries.contains((k, v))
            },
{
    let after = entries.update(at, pair);
    assert forall|k: Seq<char>, v: Seq<char>| #[trigger] after.contains((k, v)) <==> if k
        == pair.0 {
        v == pair.1
    } else {
        entries.contains((k, v))
    } by {
        if after.contains((k, v)) {
            let i = choose|i: int| 0 <= i < after.len() && after[i] == (k, v);
            if i != at {
                assert(entries[i] == (k, v));
                if i < at {
                    assert(text::text_before(entries[i].0, entries[at].0));
                } else {
                    assert(text::text_before(entries[at].0, entries[i].0));
                }
                text::text_order_is_total(k, pair.0);
            }
        }
        if k == pair.0 && v == pair.1 {
            assert(after[at] == (k, v));
        }
        if k != pair.0 && entries.contains((k, v)) {
            let i = choose|i: int| 0 <= i < entries.len() && entries[i] == (k, v);
            assert(after[i] == (k, v));
        }
    }
}

proof fn inserting_keeps_the_rest(
    entries: Seq<(Seq<char>, Seq<char>)>,
    at: int,
    pair: (Seq<char>, Seq<char>),
)
    requires
        ascending(entries),
        0 <= at <= entries.len(),
        forall|i: int| 0 <= i < at ==> text::text_before((#[trigger] entries[i]).0, pair.0),
        at < entries.len() ==> text::text_before(pair.0, entries[at].0),
    ensures
        ascending(entries.insert(at, pair)),
        forall|k: Seq<char>, v: Seq<char>|
            #[trigger] entries.insert(at, pair).contains((k, v)) <==> if k == pair.0 {
                v == pair.1
            } else {
                entries.contains((k, v))
            },
{
    let after = entries.insert(at, pair);
    assert forall|i: int| at <= i < entries.len() implies text::text_before(
        pair.0,
        (#[trigger] entries[i]).0,
    ) by {
        if i > at {
            text::text_order_is_transitive(pair.0, entries[at].0, entries[i].0);
        }
    }
    assert forall|k: Seq<char>, v: Seq<char>| #[trigger] after.contains((k, v)) <==> if k
        == pair.0 {
        v == pair.1
    } else {
        entries.contains((k, v))
    } by {
        if after.contains((k, v)) {
            let i = choose|i: int| 0 <= i < after.len() && after[i] == (k, v);
            if i != at {
                let j = if i < at {
                    i
                } else {
                    i - 1
                };
                assert(entries[j] == (k, v));
                text::text_order_is_total(k, pair.0);
            }
        }
        if k == pair.0 && v == pair.1 {
            assert(after[at] == (k, v));
        }
        if entries.contains((k, v)) {
            let i = choose|i: int| 0 <= i < entries.len() && entries[i] == (k, v);
            let j = if i < at {
                i
            } else {
                i + 1
            };
            assert(after[j] == (k, v));
            text::text_order_is_total(k, pair.0);
        }
    }
}

impl Clone for Variants {
    fn clone(&self) -> (r: Variants)
        ensures
            r@ == self@,
    {
        proof {
            use_type_invariant(self);
        }
        let mut entries: Vec<(String, VariantValue)> = Vec::new();
        let mut i: usize = 0;
        while i < self.entries.len()
            invariant
                i <= self.entries.len(),
                entries@ == self.entries@.take(i as int),
            decreases self.entries.len() - i,
        {
            let entry = (self.entries[i].0.clone(), self.entries[i].1.clone());
            assert(entry == self.entries@[i as int]);
            entries.push(entry);
            assert(entries@ =~= self.entries@.take(i + 1));
            i += 1;
        }
        assert(entries@ =~= self.entries@);
        Variants { entries }
    }
}

/// A variant as `key=value`.
pub open spec fn variant_text(entry: (Seq<char>, Seq<char>)) -> Seq<char> {
    entry.0 + "="@ + entry.1
}

/// Variants as `key=value` pairs, or `none`.
pub open spec fn variants_text(entries: Seq<(Seq<char>, Seq<char>)>) -> Seq<char> {
    if entries.len() == 0 {
        "none"@
    } else {
        text::joined(
            entries.map_values(|entry: (Seq<char>, Seq<char>)| variant_text(entry)),
            ", "@,
        )
    }
}

/// Formats variants as `key=value` pairs for error messages.
pub fn format_variants(variants: &Variants) -> (r: String)
    ensures
        r@ == variants_text(variants@),
{
    if variants.is_empty() {
        return "none".to_owned();
    }
    let entries = variants.entries();
    let mut parts: Vec<String> = Vec::new();
    let mut i: usize = 0;
    while i < entries.len()
        invariant
            i <= entries.len(),
            parts.len() == i,
            forall|j: int|
                0 <= j < entries@.len() ==> (#[trigger] entries@[j]).0@ == variants@[j].0
                    && entries@[j].1.text@ == variants@[j].1,
            forall|j: int| 0 <= j < i ==> (#[trigger] parts@[j])@ == variant_text(variants@[j]),
        decreases entries.len() - i,
    {
        let mut part = entries[i].0.clone();
        part.append("=");
        part.append(entries[i].1.text.as_str());
        assert(part@ == variant_text(variants@[i as int]));
        parts.push(part);
        i += 1;
    }
    assert(text::views(parts@) =~= variants@.map_values(
        |entry: (Seq<char>, Seq<char>)| variant_text(entry),
    ));
    text::join(&parts, ", ")
}

} // verus!
