//! Assembly of the Deck UI catalog: which installed Decks are candidates,
//! the issue recorded for an invalid one, and the order in which Decks and
//! issues are listed.

use vstd::prelude::*;

use crate::command_error::CommandError;
use crate::deck_ui::{
    deck_ui_catalog_limit, deck_ui_view_from_parts, faceplate_valid, operator_valid, package_matches,
    DeckFaceplate, DeckManifestFacts, DeckOperatorDescriptor, DeckUiPackageLoadError, DeckUiParts,
    MAX_DECK_UI_CATALOG_ENTRIES,
};
use crate::extension_views::{InstalledPackageSummary, PackageHealth, PackageReference};

verus! {

broadcast use vstd::seq_lib::group_to_multiset_ensures;

/// Strict lexicographic order of texts by code point, as `String`'s `Ord`
/// orders them.
pub open spec fn text_lt(a: Seq<char>, b: Seq<char>) -> bool
    decreases a.len(),
{
    if a.len() == 0 {
        b.len() > 0
    } else if b.len() == 0 {
        false
    } else if a[0] != b[0] {
        a[0] < b[0]
    } else {
        text_lt(a.drop_first(), b.drop_first())
    }
}

/// No text precedes itself.
pub proof fn lemma_text_lt_irreflexive(a: Seq<char>)
    ensures
        !text_lt(a, a),
    decreases a.len(),
{
    if a.len() > 0 {
        lemma_text_lt_irreflexive(a.drop_first());
    }
}

/// Of two texts, at most one precedes the other.
pub proof fn lemma_text_lt_asymmetric(a: Seq<char>, b: Seq<char>)
    ensures
        !(text_lt(a, b) && text_lt(b, a)),
    decreases a.len(),
{
    if a.len() > 0 && b.len() > 0 && a[0] == b[0] {
        lemma_text_lt_asymmetric(a.drop_first(), b.drop_first());
    }
}

/// The order is transitive.
pub proof fn lemma_text_lt_transitive(a: Seq<char>, b: Seq<char>, c: Seq<char>)
    requires
        text_lt(a, b),
        text_lt(b, c),
    ensures
        text_lt(a, c),
    decreases a.len(),
{
    if a.len() > 0 && b.len() > 0 && c.len() > 0 && a[0] == b[0] && b[0] == c[0] {
        lemma_text_lt_transitive(a.drop_first(), b.drop_first(), c.drop_first());
    }
}

/// Of two different texts, one precedes the other.
pub proof fn lemma_text_lt_total(a: Seq<char>, b: Seq<char>)
    ensures
        a == b || text_lt(a, b) || text_lt(b, a),
    decreases a.len(),
{
    if a.len() > 0 && b.len() > 0 && a[0] == b[0] {
        lemma_text_lt_total(a.drop_first(), b.drop_first());
        if a.drop_first() == b.drop_first() {
            assert(a =~= seq![a[0]] + a.drop_first());
            assert(b =~= seq![b[0]] + b.drop_first());
        }
    } else if a.len() == 0 && b.len() == 0 {
        assert(a =~= b);
    }
}

/// Whether `a` precedes `b` in code point order.
pub fn text_less(a: &str, b: &str) -> (r: bool)
    ensures
        r == text_lt(a@, b@),
{
    let n = a.unicode_len();
    let m = b.unicode_len();
    let mut i: usize = 0;
    proof {
        assert(a@.skip(0) =~= a@);
        assert(b@.skip(0) =~= b@);
    }
    while i < n && i < m
        invariant
            n == a@.len(),
            m == b@.len(),
            i <= n,
            i <= m,
            text_lt(a@, b@) == text_lt(a@.skip(i as int), b@.skip(i as int)),
        decreases n - i,
    {
        let x = a.get_char(i);
        let y = b.get_char(i);
        proof {
            assert(a@.skip(i as int)[0] == x);
            assert(b@.skip(i as int)[0] == y);
        }
        if x != y {
            return x < y;
        }
        proof {
            assert(a@.skip(i as int).drop_first() =~= a@.skip(i + 1));
            assert(b@.skip(i as int).drop_first() =~= b@.skip(i + 1));
        }
        i += 1;
    }
    proof {
        assert(a@.skip(i as int).len() == n - i);
        assert(b@.skip(i as int).len() == m - i);
    }
    i == n && i < m
}

/// The order of catalog entries: by identifier, then by version.
pub open spec fn key_lt(a: (Seq<char>, Seq<char>), b: (Seq<char>, Seq<char>)) -> bool {
    text_lt(a.0, b.0) || (a.0 == b.0 && text_lt(a.1, b.1))
}

/// The key order is a strict total order on distinct keys.
pub proof fn lemma_key_lt_order(
    a: (Seq<char>, Seq<char>),
    b: (Seq<char>, Seq<char>),
    c: (Seq<char>, Seq<char>),
)
    ensures
        !key_lt(a, a),
        !(key_lt(a, b) && key_lt(b, a)),
        key_lt(a, b) && key_lt(b, c) ==> key_lt(a, c),
        a == b || key_lt(a, b) || key_lt(b, a),
{
    lemma_text_lt_irreflexive(a.0);
    lemma_text_lt_irreflexive(a.1);
    lemma_text_lt_asymmetric(a.0, b.0);
    lemma_text_lt_asymmetric(a.1, b.1);
    lemma_text_lt_total(a.0, b.0);
    lemma_text_lt_total(a.1, b.1);
    if key_lt(a, b) && key_lt(b, c) {
        if text_lt(a.0, b.0) && text_lt(b.0, c.0) {
            lemma_text_lt_transitive(a.0, b.0, c.0);
        } else if text_lt(a.0, b.0) {
        } else if text_lt(b.0, c.0) {
        } else {
            lemma_text_lt_transitive(a.1, b.1, c.1);
        }
    }
}

/// Not preceding is transitive: `a <= b <= c` gives `a <= c`.
pub proof fn lemma_key_le_transitive(
    a: (Seq<char>, Seq<char>),
    b: (Seq<char>, Seq<char>),
    c: (Seq<char>, Seq<char>),
)
    requires
        !key_lt(b, a),
        !key_lt(c, b),
    ensures
        !key_lt(c, a),
{
    lemma_key_lt_order(c, a, b);
    lemma_key_lt_order(a, b, c);
    lemma_key_lt_order(c, b, a);
}

/// An entry of the catalog, ordered by its identifier and version.
pub trait CatalogOrdered: Sized {
    spec fn catalog_key(&self) -> (Seq<char>, Seq<char>);

    fn precedes(&self, other: &Self) -> (r: bool)
        ensures
            r == key_lt(self.catalog_key(), other.catalog_key()),
    ;
}

fn key_less(id_a: &String, version_a: &String, id_b: &String, version_b: &String) -> (r: bool)
    ensures
        r == key_lt((id_a@, version_a@), (id_b@, version_b@)),
{
    if text_less(id_a.as_str(), id_b.as_str()) {
        return true;
    }
    id_a.clone() == id_b.clone() && text_less(version_a.as_str(), version_b.as_str())
}

impl CatalogOrdered for DeckUiParts {
    open spec fn catalog_key(&self) -> (Seq<char>, Seq<char>) {
        (self.deck_id@, self.deck_version@)
    }

    fn precedes(&self, other: &Self) -> (r: bool) {
        key_less(&self.deck_id, &self.deck_version, &other.deck_id, &other.deck_version)
    }
}

/// One installed Deck whose UI contract the catalog refuses.
#[derive(Clone, Debug)]
pub struct DeckUiCatalogIssue {
    pub package: PackageReference,
    pub code: String,
    pub detail: String,
}

impl CatalogOrdered for DeckUiCatalogIssue {
    open spec fn catalog_key(&self) -> (Seq<char>, Seq<char>) {
        (self.package.package_id@, self.package.package_version@)
    }

    fn precedes(&self, other: &Self) -> (r: bool) {
        key_less(
            &self.package.package_id,
            &self.package.package_version,
            &other.package.package_id,
            &other.package.package_version,
        )
    }
}

/// The keys of a sequence of entries never decrease.
pub open spec fn keys_sorted<T: CatalogOrdered>(s: Seq<T>) -> bool {
    forall|i: int, j: int|
        0 <= i < j < s.len() ==> !key_lt((#[trigger] s[j]).catalog_key(), (#[trigger] s[i]).catalog_key())
}

/// An entry carries the key.
pub open spec fn key_is<T: CatalogOrdered>(k: (Seq<char>, Seq<char>)) -> spec_fn(T) -> bool {
    |e: T| e.catalog_key() == k
}

/// The entries of a sequence that carry one key, in their order.
pub open spec fn with_key<T: CatalogOrdered>(s: Seq<T>, k: (Seq<char>, Seq<char>)) -> Seq<T> {
    s.filter(key_is(k))
}

/// Entries that share a key keep their relative order.
pub open spec fn same_order_per_key<T: CatalogOrdered>(a: Seq<T>, b: Seq<T>) -> bool {
    forall|k: (Seq<char>, Seq<char>)| #[trigger] with_key(a, k) == with_key(b, k)
}

/// No entry of the sequence carries the key: none is kept.
proof fn lemma_with_key_none<T: CatalogOrdered>(s: Seq<T>, k: (Seq<char>, Seq<char>))
    requires
        forall|i: int| 0 <= i < s.len() ==> (#[trigger] s[i]).catalog_key() != k,
    ensures
        with_key(s, k) == Seq::<T>::empty(),
{
    let f = with_key(s, k);
    if f.len() > 0 {
        s.filter_lemma(key_is(k));
        assert(f.contains(f[0]));
        s.lemma_filter_contains_rev(key_is(k), f[0]);
        let i = choose|i: int| 0 <= i < s.len() && s[i] == f[0];
        assert(s[i].catalog_key() != k);
    }
    assert(f =~= Seq::<T>::empty());
}

/// Inserting an entry after every entry of a smaller key and before the
/// rest puts it first among the entries of its key.
proof fn lemma_with_key_insert<T: CatalogOrdered>(
    s: Seq<T>,
    p: int,
    x: T,
    k: (Seq<char>, Seq<char>),
)
    requires
        0 <= p <= s.len(),
        forall|i: int| 0 <= i < p ==> key_lt((#[trigger] s[i]).catalog_key(), x.catalog_key()),
    ensures
        with_key(s.insert(p, x), k) == (if x.catalog_key() == k {
            seq![x] + with_key(s, k)
        } else {
            with_key(s, k)
        }),
{
    let pred = key_is::<T>(k);
    let a = s.subrange(0, p);
    let b = s.subrange(p, s.len() as int);
    assert(s =~= a + b);
    assert(s.insert(p, x) =~= a + (seq![x] + b));
    Seq::filter_distributes_over_add(a, b, pred);
    Seq::filter_distributes_over_add(a, seq![x] + b, pred);
    b.lemma_filter_prepend(x, pred);
    if x.catalog_key() == k {
        assert forall|i: int| 0 <= i < a.len() implies (#[trigger] a[i]).catalog_key() != k by {
            assert(a[i] == s[i]);
            lemma_key_lt_order(s[i].catalog_key(), k, k);
        }
        lemma_with_key_none(a, k);
        assert(with_key(a, k) + (seq![x] + with_key(b, k)) =~= seq![x] + (with_key(a, k) + with_key(b, k)));
    }
}

/// Orders catalog entries by identifier, then version; entries with the same
/// identifier and version keep their given order.
pub fn sort_catalog<T: CatalogOrdered>(entries: Vec<T>) -> (r: Vec<T>)
    ensures
        keys_sorted(r@),
        same_order_per_key(r@, entries@),
        r@.to_multiset() == entries@.to_multiset(),
{
    let ghost all = entries@;
    let mut rest = entries;
    let mut sorted: Vec<T> = Vec::new();
    proof {
        assert forall|k: (Seq<char>, Seq<char>)| #[trigger] with_key(sorted@, k) == with_key(
            all.subrange(rest@.len() as int, all.len() as int),
            k,
        ) by {
            lemma_with_key_none(sorted@, k);
            lemma_with_key_none(all.subrange(rest@.len() as int, all.len() as int), k);
        }
    }
    while rest.len() > 0
        invariant
            keys_sorted(sorted@),
            sorted@.to_multiset().add(rest@.to_multiset()) == all.to_multiset(),
            rest@.len() <= all.len(),
            rest@ == all.subrange(0, rest@.len() as int),
            forall|k: (Seq<char>, Seq<char>)| #[trigger] with_key(sorted@, k) == with_key(
                all.subrange(rest@.len() as int, all.len() as int),
                k,
            ),
        decreases rest.len(),
    {
        let ghost before = rest@;
        let x = rest.pop().unwrap();
        proof {
            assert(before =~= rest@.push(x));
        }
        let mut p: usize = 0;
        while p < sorted.len() && sorted[p].precedes(&x)
            invariant
                p <= sorted@.len(),
                forall|i: int| 0 <= i < p ==> key_lt((#[trigger] sorted@[i]).catalog_key(), x.catalog_key()),
            decreases sorted.len() - p,
        {
            p += 1;
        }
        let ghost old_sorted = sorted@;
        sorted.insert(p, x);
        proof {
            assert(sorted@ == old_sorted.insert(p as int, x));
            let n = rest@.len() as int;
            let old_suffix = all.subrange(n + 1, all.len() as int);
            let new_suffix = all.subrange(n, all.len() as int);
            assert(x == all[n]);
            assert(new_suffix =~= seq![x] + old_suffix);
            assert forall|k: (Seq<char>, Seq<char>)| #[trigger] with_key(sorted@, k) == with_key(
                new_suffix,
                k,
            ) by {
                lemma_with_key_insert(old_sorted, p as int, x, k);
                old_suffix.lemma_filter_prepend(x, key_is(k));
                assert(with_key(old_sorted, k) == with_key(old_suffix, k));
            }
            assert forall|i: int, j: int| 0 <= i < j < sorted@.len() implies !key_lt(
                (#[trigger] sorted@[j]).catalog_key(),
                (#[trigger] sorted@[i]).catalog_key(),
            ) by {
                let xk = x.catalog_key();
                if j < p {
                    assert(sorted@[i] == old_sorted[i] && sorted@[j] == old_sorted[j]);
                } else if j == p {
                    assert(sorted@[i] == old_sorted[i]);
                    lemma_key_lt_order(old_sorted[i].catalog_key(), xk, xk);
                } else if i == p {
                    assert(sorted@[j] == old_sorted[j - 1]);
                    if p < old_sorted.len() {
                        assert(!key_lt(old_sorted[p as int].catalog_key(), xk));
                        if j - 1 > p {
                            assert(!key_lt(
                                old_sorted[j - 1].catalog_key(),
                                old_sorted[p as int].catalog_key(),
                            ));
                        }
                        lemma_key_lt_order(old_sorted[p as int].catalog_key(), xk, xk);
                        lemma_key_le_transitive(
                            xk,
                            old_sorted[p as int].catalog_key(),
                            old_sorted[j - 1].catalog_key(),
                        );
                    }
                } else if i < p {
                    assert(sorted@[i] == old_sorted[i] && sorted@[j] == old_sorted[j - 1]);
                } else {
                    assert(sorted@[i] == old_sorted[i - 1] && sorted@[j] == old_sorted[j - 1]);
                }
            }
        }
    }
    sorted
}

/// The Decks that the catalog considers: every enabled and healthy one.
pub open spec fn is_candidate(s: InstalledPackageSummary) -> bool {
    s.enabled && s.health == PackageHealth::Healthy
}

fn copy_reference(p: &PackageReference) -> (r: PackageReference)
    ensures
        r == *p,
{
    PackageReference {
        kind: p.kind,
        package_id: p.package_id.clone(),
        package_version: p.package_version.clone(),
    }
}

/// The packages of the candidate summaries, in order.
pub open spec fn candidate_packages(s: Seq<InstalledPackageSummary>) -> Seq<PackageReference>
    decreases s.len(),
{
    if s.len() == 0 {
        Seq::empty()
    } else if is_candidate(s.last()) {
        candidate_packages(s.drop_last()).push(s.last().package)
    } else {
        candidate_packages(s.drop_last())
    }
}

/// The candidates of the catalog, in listing order: the enabled and healthy
/// Decks; more than 256 of them refuse the whole catalog.
pub fn catalog_candidates(summaries: &Vec<InstalledPackageSummary>) -> (r: Result<
    Vec<PackageReference>,
    CommandError,
>)
    ensures
        candidate_packages(summaries@).len() <= MAX_DECK_UI_CATALOG_ENTRIES <==> r is Ok,
        r matches Ok(v) ==> v@ == candidate_packages(summaries@),
        r matches Err(e) ==> e.code@ == "deck_ui.catalog_limit_exceeded"@ && e.message@
            == "The enabled Deck UI catalog exceeds its closed entry or JSON byte limit."@,
{
    let mut out: Vec<PackageReference> = Vec::new();
    let mut i: usize = 0;
    proof {
        assert(summaries@.take(0) =~= Seq::<InstalledPackageSummary>::empty());
    }
    while i < summaries.len()
        invariant
            i <= summaries@.len(),
            out@ == candidate_packages(summaries@.take(i as int)),
        decreases summaries.len() - i,
    {
        let s = &summaries[i];
        proof {
            assert(summaries@.take(i + 1).drop_last() =~= summaries@.take(i as int));
            assert(summaries@.take(i + 1).last() == summaries@[i as int]);
        }
        if s.enabled && s.health == PackageHealth::Healthy {
            out.push(copy_reference(&s.package));
        }
        i += 1;
    }
    proof {
        assert(summaries@.take(summaries@.len() as int) =~= summaries@);
    }
    if out.len() > MAX_DECK_UI_CATALOG_ENTRIES {
        return Err(deck_ui_catalog_limit());
    }
    Ok(out)
}

/// The issue that lists a Deck whose UI contract is invalid.
pub fn deck_ui_package_issue(package: &PackageReference) -> (i: DeckUiCatalogIssue)
    ensures
        i.package == *package,
        i.code@ == "deck_ui.package_invalid"@,
        i.detail@ == "The exact Deck UI contract is invalid; verify or repair this version."@,
{
    DeckUiCatalogIssue {
        package: copy_reference(package),
        code: "deck_ui.package_invalid".to_owned(),
        detail: "The exact Deck UI contract is invalid; verify or repair this version.".to_owned(),
    }
}

/// The Deck UI catalog: the valid Decks and the refused ones.
#[derive(Clone, Debug)]
pub struct DeckUiCatalog {
    pub decks: Vec<DeckUiParts>,
    pub issues: Vec<DeckUiCatalogIssue>,
}

/// Lists the loaded Decks and the issues, each ordered by identifier and
/// version, entries of one identifier and version in their given order.
pub fn assemble_deck_ui_catalog(decks: Vec<DeckUiParts>, issues: Vec<DeckUiCatalogIssue>) -> (c:
    DeckUiCatalog)
    ensures
        keys_sorted(c.decks@),
        keys_sorted(c.issues@),
        same_order_per_key(c.decks@, decks@),
        same_order_per_key(c.issues@, issues@),
        c.decks@.to_multiset() == decks@.to_multiset(),
        c.issues@.to_multiset() == issues@.to_multiset(),
{
    DeckUiCatalog { decks: sort_catalog(decks), issues: sort_catalog(issues) }
}


/// Completes one candidate Deck from its parsed operator and faceplate: a
/// file that did not parse, or parts that break the Deck's exact contract,
/// make the Deck an issue of the catalog.
pub fn catalog_deck_parts(
    package: &PackageReference,
    manifest: &DeckManifestFacts,
    operator: Option<DeckOperatorDescriptor>,
    faceplate: Option<DeckFaceplate>,
) -> (r: Result<DeckUiParts, DeckUiPackageLoadError>)
    ensures
        r is Err ==> r == Err::<DeckUiParts, DeckUiPackageLoadError>(DeckUiPackageLoadError::Package),
        match (operator, faceplate) {
            (Some(o), Some(f)) => {
                &&& r is Ok <==> package_matches(*package, *manifest) && operator_valid(*manifest, o)
                    && faceplate_valid(*manifest, o, f)
                &&& r matches Ok(parts) ==> parts.deck_id == manifest.deck_id && parts.deck_version
                    == manifest.deck_version && parts.operator_id == o.operator_id && parts.controls
                    == o.controls && parts.faceplate == f
            },
            _ => r is Err,
        },
{
    let (o, f) = match (operator, faceplate) {
        (Some(o), Some(f)) => (o, f),
        _ => {
            return Err(DeckUiPackageLoadError::Package);
        },
    };
    match deck_ui_view_from_parts(package, manifest, o, f) {
        Ok(parts) => Ok(parts),
        Err(_) => Err(DeckUiPackageLoadError::Package),
    }
}

/// Records one candidate Deck's outcome: loaded parts join the Decks, an
/// invalid Deck becomes an issue, and a spent JSON budget refuses the whole
/// catalog, leaving both lists as they were.
pub fn catalog_record(
    decks: &mut Vec<DeckUiParts>,
    issues: &mut Vec<DeckUiCatalogIssue>,
    package: &PackageReference,
    loaded: Result<DeckUiParts, DeckUiPackageLoadError>,
) -> (r: Result<(), CommandError>)
    ensures
        match loaded {
            Ok(parts) => r is Ok && final(decks)@ == old(decks)@.push(parts) && final(issues)@
                == old(issues)@,
            Err(DeckUiPackageLoadError::Package) => {
                &&& r is Ok
                &&& final(decks)@ == old(decks)@
                &&& final(issues)@.len() == old(issues)@.len() + 1
                &&& final(issues)@.take(old(issues)@.len() as int) == old(issues)@
                &&& final(issues)@.last().package == *package
                &&& final(issues)@.last().code@ == "deck_ui.package_invalid"@
                &&& final(issues)@.last().detail@
                    == "The exact Deck UI contract is invalid; verify or repair this version."@
            },
            Err(DeckUiPackageLoadError::CatalogLimit) => {
                &&& r matches Err(e) && e.code@ == "deck_ui.catalog_limit_exceeded"@ && e.message@
                    == "The enabled Deck UI catalog exceeds its closed entry or JSON byte limit."@
                &&& final(decks)@ == old(decks)@
                &&& final(issues)@ == old(issues)@
            },
        },
{
    match loaded {
        Ok(parts) => {
            decks.push(parts);
            Ok(())
        },
        Err(DeckUiPackageLoadError::Package) => {
            let ghost before = issues@;
            issues.push(deck_ui_package_issue(package));
            proof {
                assert(issues@.take(before.len() as int) =~= before);
            }
            Ok(())
        },
        Err(DeckUiPackageLoadError::CatalogLimit) => Err(deck_ui_catalog_limit()),
    }
}
} // verus!
