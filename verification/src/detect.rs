//! Recognising the kind of a file from its path.
//!
//! The kinds are tried in catalogue order and, within a kind, its patterns in
//! their order; the first pattern that matches decides.

use vstd::prelude::*;
use regex::Regex;
use crate::binary_type::{
    all_kinds, compiled_rows, lemma_catalogue_complete, lemma_catalogue_distinct,
    lemma_same_kind_same_entry, lemma_with_endian, NuccBinaryType,
};
use crate::endian::Endian;
use crate::error::PatternError;
use crate::pattern::{regex_accepts, regex_is_match};

verus! {

/// The byte order of the first of `rows`, from position `from` on, whose
/// pattern matches `path`.
pub open spec fn first_order(rows: Seq<(Seq<char>, Endian)>, path: Seq<char>, from: int) -> Option<
    Endian,
>
    decreases rows.len() - from,
{
    if from < 0 || from >= rows.len() {
        None
    } else if regex_is_match(rows[from].0, path) {
        Some(rows[from].1)
    } else {
        first_order(rows, path, from + 1)
    }
}

/// The byte order under which `kind` claims `path`: that of the first of the
/// kind's patterns that matches.
pub open spec fn kind_claims(kind: NuccBinaryType, path: Seq<char>) -> Option<Endian> {
    first_order(kind.pattern_rows(), path, 0)
}

/// The first of `kinds`, from position `from` on, that claims `path`, with the
/// byte order under which it does. The kind is returned carrying that order.
pub open spec fn first_kind(kinds: Seq<NuccBinaryType>, path: Seq<char>, from: int) -> Option<
    (NuccBinaryType, Endian),
>
    decreases kinds.len() - from,
{
    if from < 0 || from >= kinds.len() {
        None
    } else {
        match kind_claims(kinds[from], path) {
            Some(order) => Some((kinds[from].spec_with_endian(order), order)),
            None => first_kind(kinds, path, from + 1),
        }
    }
}

/// What detection answers for `path`.
pub open spec fn spec_detect(path: Seq<char>) -> Option<(NuccBinaryType, Endian)> {
    first_kind(all_kinds(), path, 0)
}

/// The pattern tables of the whole catalogue: each kind, in catalogue order,
/// with the rows of its patterns.
pub open spec fn catalogue_tables() -> Seq<(NuccBinaryType, Seq<(Seq<char>, Endian)>)> {
    Seq::new(all_kinds().len(), |k: int| (all_kinds()[k], all_kinds()[k].pattern_rows()))
}

/// The pattern text at position `i` of the kind at position `k` is the first
/// of the catalogue that `regex` refuses: it is refused, and every text
/// before it, of that kind and of the kinds before, is accepted.
pub open spec fn first_refused(k: int, i: int) -> bool {
    &&& 0 <= k < all_kinds().len()
    &&& 0 <= i < all_kinds()[k].pattern_table().len()
    &&& !regex_accepts(all_kinds()[k].pattern_table()[i].0@)
    &&& forall|j: int|
        0 <= j < i ==> regex_accepts((#[trigger] all_kinds()[k].pattern_table()[j]).0@)
    &&& forall|earlier: int| 0 <= earlier < k ==> (#[trigger] all_kinds()[earlier]).patterns_accepted()
}

/// The byte order of the first of `patterns` that matches `path`, if any does.
pub fn first_match(patterns: &Vec<(Regex, Endian)>, path: &str) -> (order: Option<Endian>)
    ensures
        order == first_order(compiled_rows(patterns@), path@, 0),
{
    let ghost rows = compiled_rows(patterns@);
    let mut i: usize = 0;
    while i < patterns.len()
        invariant
            i <= patterns.len(),
            rows == compiled_rows(patterns@),
            first_order(rows, path@, 0) == first_order(rows, path@, i as int),
        decreases patterns.len() - i,
    {
        if patterns[i].0.is_match(path) {
            return Some(patterns[i].1);
        }
        i += 1;
    }
    None
}

/// The patterns of one kind, compiled.
struct KindPatterns {
    kind: NuccBinaryType,
    patterns: Vec<(Regex, Endian)>,
}

/// The pattern tables of all kinds, compiled once and then only read.
pub struct Catalogue {
    entries: Vec<KindPatterns>,
}

impl View for Catalogue {
    type V = Seq<(NuccBinaryType, Seq<(Seq<char>, Endian)>)>;

    /// Each kind held, in the order held, with the rows of its compiled patterns.
    closed spec fn view(&self) -> Self::V {
        Seq::new(
            self.entries@.len(),
            |k: int| (self.entries@[k].kind, compiled_rows(self.entries@[k].patterns@)),
        )
    }
}

impl Catalogue {
    /// The entries are those of the catalogue's kinds, in catalogue order, each
    /// with its own patterns.
    #[verifier::type_invariant]
    spec fn holds_every_kind(&self) -> bool {
        &&& self.entries@.len() == all_kinds().len()
        &&& forall|k: int|
            0 <= k < self.entries@.len() ==> (#[trigger] self.entries@[k]).kind == all_kinds()[k]
                && compiled_rows(self.entries@[k].patterns@) == all_kinds()[k].pattern_rows()
    }

    /// Compiles the patterns of every kind.
    ///
    /// Succeeds exactly where `regex` accepts every pattern text of the
    /// catalogue. Otherwise the error names the first text, in catalogue
    /// order, that it refuses.
    pub fn new() -> (made: Result<Catalogue, PatternError>)
        ensures
            made is Ok <==> forall|k: int|
                0 <= k < all_kinds().len() ==> (#[trigger] all_kinds()[k]).patterns_accepted(),
            match made {
                Ok(catalogue) => catalogue@ == catalogue_tables(),
                Err(refused) => exists|k: int, i: int|
                    first_refused(k, i) && refused.pattern == (#[trigger] all_kinds()[k].pattern_table()[i]).0,
            },
    {
        let kinds = NuccBinaryType::all();
        let mut entries: Vec<KindPatterns> = Vec::new();
        let mut k: usize = 0;
        while k < kinds.len()
            invariant
                kinds@ == all_kinds(),
                k <= kinds.len(),
                entries@.len() == k,
                forall|j: int|
                    0 <= j < k ==> (#[trigger] entries@[j]).kind == all_kinds()[j] && compiled_rows(
                        entries@[j].patterns@,
                    ) == all_kinds()[j].pattern_rows(),
                forall|j: int| 0 <= j < k ==> (#[trigger] all_kinds()[j]).patterns_accepted(),
            decreases kinds.len() - k,
        {
            let kind = kinds[k];
            match kind.patterns() {
                Ok(patterns) => {
                    entries.push(KindPatterns { kind, patterns });
                },
                Err(refused) => {
                    proof {
                        let i = choose|i: int|
                            0 <= i < kind.pattern_table().len() && refused.pattern
                                == (#[trigger] kind.pattern_table()[i]).0 && !regex_accepts(
                                kind.pattern_table()[i].0@,
                            ) && forall|j: int|
                                0 <= j < i ==> regex_accepts(
                                    (#[trigger] kind.pattern_table()[j]).0@,
                                );
                        assert(first_refused(k as int, i));
                        assert(refused.pattern == all_kinds()[k as int].pattern_table()[i].0);
                        assert(!all_kinds()[k as int].patterns_accepted());
                    }
                    return Err(refused);
                },
            }
            k += 1;
        }
        let catalogue = Catalogue { entries };
        assert(catalogue@ =~= catalogue_tables());
        Ok(catalogue)
    }

    /// The kind of the file at `path` and the byte order of its numbers: those
    /// of the first pattern, in catalogue order, that matches the path. `None`
    /// where no pattern matches.
    pub fn detect(&self, path: &str) -> (found: Option<(NuccBinaryType, Endian)>)
        ensures
            found == spec_detect(path@),
    {
        proof {
            use_type_invariant(self);
        }
        let mut k: usize = 0;
        while k < self.entries.len()
            invariant
                self.holds_every_kind(),
                k <= self.entries.len(),
                spec_detect(path@) == first_kind(all_kinds(), path@, k as int),
            decreases self.entries.len() - k,
        {
            let entry = &self.entries[k];
            match first_match(&entry.patterns, path) {
                Some(order) => {
                    return Some((entry.kind.with_endian(order), order));
                },
                None => {},
            }
            k += 1;
        }
        None
    }
}

/// No pattern of `rows`, from position `from` on, matches `path`.
pub open spec fn none_matches(rows: Seq<(Seq<char>, Endian)>, path: Seq<char>, from: int) -> bool {
    forall|i: int| from <= i < rows.len() ==> !regex_is_match((#[trigger] rows[i]).0, path)
}

/// A search through `rows` finds nothing exactly where none of them matches.
pub proof fn lemma_first_order_none(rows: Seq<(Seq<char>, Endian)>, path: Seq<char>, from: int)
    requires
        0 <= from,
    ensures
        first_order(rows, path, from) is None <==> none_matches(rows, path, from),
    decreases rows.len() - from,
{
    if from < rows.len() {
        lemma_first_order_none(rows, path, from + 1);
        if !regex_is_match(rows[from].0, path) && none_matches(rows, path, from + 1) {
            assert forall|i: int| from <= i < rows.len() implies !regex_is_match(
                (#[trigger] rows[i]).0,
                path,
            ) by {
                if i > from {
                }
            }
        }
    }
}

/// A search through `rows` answers with the byte order of the row at `at`
/// where that row's pattern matches and none before it does.
pub proof fn lemma_first_order_at(
    rows: Seq<(Seq<char>, Endian)>,
    path: Seq<char>,
    from: int,
    at: int,
)
    requires
        0 <= from <= at < rows.len(),
        regex_is_match(rows[at].0, path),
        forall|i: int| from <= i < at ==> !regex_is_match((#[trigger] rows[i]).0, path),
    ensures
        first_order(rows, path, from) == Some(rows[at].1),
    decreases at - from,
{
    if from < at {
        lemma_first_order_at(rows, path, from + 1, at);
    }
}

/// Where a search through `rows` answers, a row at or after `from` has the
/// byte order answered, its pattern matches, and no row between does.
pub proof fn lemma_first_order_some(rows: Seq<(Seq<char>, Endian)>, path: Seq<char>, from: int)
    requires
        0 <= from,
        first_order(rows, path, from) is Some,
    ensures
        exists|at: int|
            from <= at < rows.len() && regex_is_match((#[trigger] rows[at]).0, path) && rows[at].1
                == first_order(rows, path, from)->Some_0 && forall|i: int|
                from <= i < at ==> !regex_is_match((#[trigger] rows[i]).0, path),
    decreases rows.len() - from,
{
    if regex_is_match(rows[from].0, path) {
        assert(regex_is_match(rows[from].0, path) && rows[from].1 == first_order(
            rows,
            path,
            from,
        )->Some_0);
    } else {
        lemma_first_order_some(rows, path, from + 1);
        let at = choose|at: int|
            from + 1 <= at < rows.len() && regex_is_match((#[trigger] rows[at]).0, path)
                && rows[at].1 == first_order(rows, path, from + 1)->Some_0 && forall|i: int|
                from + 1 <= i < at ==> !regex_is_match((#[trigger] rows[i]).0, path);
        assert(regex_is_match(rows[at].0, path));
        assert forall|i: int| from <= i < at implies !regex_is_match(
            (#[trigger] rows[i]).0,
            path,
        ) by {
            if i > from {
            }
        }
    }
}

/// The search through `kinds` from `from` on answers with the kind at `at`
/// where that kind claims the path and none of the kinds between does.
pub proof fn lemma_first_kind_at(kinds: Seq<NuccBinaryType>, path: Seq<char>, from: int, at: int)
    requires
        0 <= from <= at < kinds.len(),
        kind_claims(kinds[at], path) is Some,
        forall|k: int| from <= k < at ==> kind_claims(#[trigger] kinds[k], path) is None,
    ensures
        first_kind(kinds, path, from) == Some(
            (
                kinds[at].spec_with_endian(kind_claims(kinds[at], path)->Some_0),
                kind_claims(kinds[at], path)->Some_0,
            ),
        ),
    decreases at - from,
{
    if from < at {
        lemma_first_kind_at(kinds, path, from + 1, at);
    }
}

/// The search through `kinds` from `from` on finds nothing exactly where none
/// of those kinds claims the path.
pub proof fn lemma_first_kind_none(kinds: Seq<NuccBinaryType>, path: Seq<char>, from: int)
    requires
        0 <= from,
    ensures
        first_kind(kinds, path, from) is None <==> forall|k: int|
            from <= k < kinds.len() ==> kind_claims(#[trigger] kinds[k], path) is None,
    decreases kinds.len() - from,
{
    if from < kinds.len() {
        lemma_first_kind_none(kinds, path, from + 1);
        if kind_claims(kinds[from], path) is None && first_kind(kinds, path, from + 1) is None {
            assert forall|k: int| from <= k < kinds.len() implies kind_claims(
                #[trigger] kinds[k],
                path,
            ) is None by {
                if k > from {
                }
            }
        }
    }
}

/// Where the search through `kinds` answers, the answer is a kind at or after
/// `from` that claims the path, carrying the byte order under which it does,
/// and no kind between claims it.
pub proof fn lemma_first_kind_some(kinds: Seq<NuccBinaryType>, path: Seq<char>, from: int)
    requires
        0 <= from,
        first_kind(kinds, path, from) is Some,
    ensures
        exists|at: int|
            from <= at < kinds.len() && kind_claims(#[trigger] kinds[at], path) is Some
                && first_kind(kinds, path, from) == Some(
                (
                    kinds[at].spec_with_endian(kind_claims(kinds[at], path)->Some_0),
                    kind_claims(kinds[at], path)->Some_0,
                ),
            ) && forall|k: int| from <= k < at ==> kind_claims(#[trigger] kinds[k], path) is None,
    decreases kinds.len() - from,
{
    if kind_claims(kinds[from], path) is Some {
        assert(kind_claims(kinds[from], path) is Some && first_kind(kinds, path, from) == Some(
            (
                kinds[from].spec_with_endian(kind_claims(kinds[from], path)->Some_0),
                kind_claims(kinds[from], path)->Some_0,
            ),
        ));
    } else {
        lemma_first_kind_some(kinds, path, from + 1);
        let at = choose|at: int|
            from + 1 <= at < kinds.len() && kind_claims(#[trigger] kinds[at], path) is Some
                && first_kind(kinds, path, from + 1) == Some(
                (
                    kinds[at].spec_with_endian(kind_claims(kinds[at], path)->Some_0),
                    kind_claims(kinds[at], path)->Some_0,
                ),
            ) && forall|k: int|
                from + 1 <= k < at ==> kind_claims(#[trigger] kinds[k], path) is None;
        assert(kind_claims(kinds[at], path) is Some);
        assert forall|k: int| from <= k < at implies kind_claims(
            #[trigger] kinds[k],
            path,
        ) is None by {
            if k > from {
            }
        }
    }
}

/// Detection is total over the catalogue: where `kind` claims `path` under
/// `order` and no kind that stands before it in the catalogue claims the
/// path, detection answers with exactly that kind, carrying `order`, and
/// with `order`.
pub proof fn lemma_detect_first_claim(kind: NuccBinaryType, path: Seq<char>, order: Endian)
    requires
        kind_claims(kind, path) == Some(order),
        forall|earlier: NuccBinaryType|
            earlier.ordinal() < kind.ordinal() ==> #[trigger] kind_claims(earlier, path) is None,
    ensures
        spec_detect(path) == Some((kind.spec_with_endian(order), order)),
{
    let at = kind.ordinal() as int;
    lemma_catalogue_complete(kind);
    lemma_same_kind_same_entry(all_kinds()[at], kind);
    lemma_with_endian(kind, order, order);
    assert forall|k: int| 0 <= k < at implies kind_claims(#[trigger] all_kinds()[k], path)
        is None by {
        lemma_catalogue_distinct(k, at);
    }
    lemma_first_kind_at(all_kinds(), path, 0, at);
}

/// Detection is not ambiguous: where `kind` claims `path` and no other kind
/// does, detection answers with `kind`, whatever the order of the catalogue.
pub proof fn lemma_detect_only_claim(kind: NuccBinaryType, path: Seq<char>, order: Endian)
    requires
        kind_claims(kind, path) == Some(order),
        forall|other: NuccBinaryType|
            !other.same_kind(kind) ==> #[trigger] kind_claims(other, path) is None,
    ensures
        spec_detect(path) == Some((kind.spec_with_endian(order), order)),
{
    assert forall|earlier: NuccBinaryType| earlier.ordinal() < kind.ordinal() implies kind_claims(
        earlier,
        path,
    ) is None by {
        assert(!earlier.same_kind(kind));
    }
    lemma_detect_first_claim(kind, path, order);
}

/// Detection answers nothing exactly where no kind claims the path, that is,
/// where no pattern of any kind matches it.
pub proof fn lemma_detect_none(path: Seq<char>)
    ensures
        spec_detect(path) is None <==> forall|kind: NuccBinaryType|
            none_matches(kind.pattern_rows(), path, 0),
{
    lemma_first_kind_none(all_kinds(), path, 0);
    if spec_detect(path) is None {
        assert forall|kind: NuccBinaryType| none_matches(kind.pattern_rows(), path, 0) by {
            let at = kind.ordinal() as int;
            lemma_catalogue_complete(kind);
            lemma_same_kind_same_entry(all_kinds()[at], kind);
            assert(kind_claims(all_kinds()[at], path) is None);
            lemma_first_order_none(kind.pattern_rows(), path, 0);
        }
    }
    if forall|kind: NuccBinaryType| none_matches(kind.pattern_rows(), path, 0) {
        assert forall|k: int| 0 <= k < all_kinds().len() implies kind_claims(
            #[trigger] all_kinds()[k],
            path,
        ) is None by {
            assert(none_matches(all_kinds()[k].pattern_rows(), path, 0));
            lemma_first_order_none(all_kinds()[k].pattern_rows(), path, 0);
        }
    }
}

/// What detection answers is a kind of the catalogue that claims the path:
/// one of its patterns matches, every pattern of that kind before it does
/// not, the byte order answered is that pattern's and the kind answered
/// carries it, and no kind that stands earlier in the catalogue claims the
/// path.
pub proof fn lemma_detect_some(path: Seq<char>)
    requires
        spec_detect(path) is Some,
    ensures
        ({
            let (kind, order) = spec_detect(path)->Some_0;
            &&& kind_claims(kind, path) == Some(order)
            &&& kind == kind.spec_with_endian(order)
            &&& exists|at: int|
                0 <= at < kind.pattern_rows().len() && regex_is_match(
                    (#[trigger] kind.pattern_rows()[at]).0,
                    path,
                ) && kind.pattern_rows()[at].1 == order && forall|i: int|
                    0 <= i < at ==> !regex_is_match((#[trigger] kind.pattern_rows()[i]).0, path)
            &&& forall|earlier: NuccBinaryType|
                earlier.ordinal() < kind.ordinal() ==> #[trigger] kind_claims(earlier, path)
                    is None
        }),
{
    let (kind, order) = spec_detect(path)->Some_0;
    lemma_first_kind_some(all_kinds(), path, 0);
    let at = choose|at: int|
        0 <= at < all_kinds().len() && kind_claims(#[trigger] all_kinds()[at], path) is Some
            && first_kind(all_kinds(), path, 0) == Some(
            (
                all_kinds()[at].spec_with_endian(kind_claims(all_kinds()[at], path)->Some_0),
                kind_claims(all_kinds()[at], path)->Some_0,
            ),
        ) && forall|k: int| 0 <= k < at ==> kind_claims(#[trigger] all_kinds()[k], path) is None;
    let listed = all_kinds()[at];
    lemma_with_endian(listed, order, order);
    lemma_same_kind_same_entry(listed, kind);
    lemma_catalogue_distinct(at, if at == 0 { 1 } else { 0 });
    lemma_first_order_some(kind.pattern_rows(), path, 0);
    assert forall|earlier: NuccBinaryType| earlier.ordinal() < kind.ordinal() implies kind_claims(
        earlier,
        path,
    ) is None by {
        let k = earlier.ordinal() as int;
        lemma_catalogue_complete(earlier);
        lemma_same_kind_same_entry(all_kinds()[k], earlier);
        assert(kind_claims(all_kinds()[k], path) is None);
    }
}

/// An example path is detected as its own kind. Where the example at
/// position `at` of `kind` matches a pattern of `kind` and no pattern of any
/// other kind, detection of it answers with `kind`, carrying the byte order
/// of the first of the kind's patterns that matches, and with that order.
pub proof fn lemma_example_detected(kind: NuccBinaryType, at: int)
    requires
        0 <= at < kind.example_table().len(),
        kind_claims(kind, kind.example_table()[at]@) is Some,
        forall|other: NuccBinaryType|
            !other.same_kind(kind) ==> #[trigger] kind_claims(other, kind.example_table()[at]@)
                is None,
    ensures
        ({
            let path = kind.example_table()[at]@;
            let order = kind_claims(kind, path)->Some_0;
            &&& spec_detect(path) == Some((kind.spec_with_endian(order), order))
            &&& exists|i: int|
                0 <= i < kind.pattern_rows().len() && regex_is_match(
                    (#[trigger] kind.pattern_rows()[i]).0,
                    path,
                ) && kind.pattern_rows()[i].1 == order && forall|j: int|
                    0 <= j < i ==> !regex_is_match((#[trigger] kind.pattern_rows()[j]).0, path)
        }),
{
    let path = kind.example_table()[at]@;
    let order = kind_claims(kind, path)->Some_0;
    lemma_detect_only_claim(kind, path, order);
    lemma_first_order_some(kind.pattern_rows(), path, 0);
}

} // verus!
