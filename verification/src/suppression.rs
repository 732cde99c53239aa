use vstd::prelude::*;
use vstd::string::*;

verus! {

/// One category named by a suppression comment, as the comment parser hands it
/// over: the category's name (such as `lint/correctness/noDoubleEquals`) and the
/// optional value written in parentheses after it (legacy syntax
/// `lint(correctness/noDoubleEquals)`).
#[derive(Debug, Clone, PartialEq, Eq)]
pub struct SuppressionCategory {
    pub name: String,
    pub value: Option<String>,
}

/// What a suppression comment asks the linter to suppress.
#[derive(Debug, Clone, PartialEq, Eq)]
pub enum SuppressionKind {
    /// Every lint rule (`lint` without a value).
    Everything,
    /// `lint(value)`: the value may name a group or a rule, in the legacy syntax.
    MaybeLegacy(String),
    /// `lint/<rule>`: the path of a group or rule after `lint/`.
    Rule(String),
}

/// The mathematical model of a `SuppressionKind`.
pub enum SuppressionKindModel {
    Everything,
    MaybeLegacy(Seq<char>),
    Rule(Seq<char>),
}

impl View for SuppressionKind {
    type V = SuppressionKindModel;

    open spec fn view(&self) -> SuppressionKindModel {
        match self {
            SuppressionKind::Everything => SuppressionKindModel::Everything,
            SuppressionKind::MaybeLegacy(v) => SuppressionKindModel::MaybeLegacy(v@),
            SuppressionKind::Rule(r) => SuppressionKindModel::Rule(r@),
        }
    }
}

/// The name of the category of all lint diagnostics.
pub open spec fn lint_category() -> Seq<char> {
    seq!['l', 'i', 'n', 't']
}

/// The prefix shared by the categories of single lint groups and rules.
pub open spec fn lint_rule_prefix() -> Seq<char> {
    seq!['l', 'i', 'n', 't', '/']
}

/// Whether `name` starts with `lint/`.
pub open spec fn has_lint_rule_prefix(name: Seq<char>) -> bool {
    name.len() >= 5 && name.take(5) == lint_rule_prefix()
}

/// What the linter makes of one category of a suppression comment: `lint`
/// suppresses everything or, with a value, what the value names; `lint/<path>`
/// suppresses `<path>`; any other category is no lint suppression.
pub open spec fn suppression_kind_of(name: Seq<char>, value: Option<Seq<char>>) -> Option<SuppressionKindModel> {
    if name == lint_category() {
        match value {
            Some(v) => Some(SuppressionKindModel::MaybeLegacy(v)),
            None => Some(SuppressionKindModel::Everything),
        }
    } else if has_lint_rule_prefix(name) {
        Some(SuppressionKindModel::Rule(name.skip(5)))
    } else {
        None
    }
}

/// The model of a category: its name and optional value.
pub open spec fn category_model(c: SuppressionCategory) -> (Seq<char>, Option<Seq<char>>) {
    (c.name@, match c.value { Some(v) => Some(v@), None => None })
}

/// The lint suppressions that a sequence of categories asks for, in order.
pub open spec fn linter_suppressions(cats: Seq<(Seq<char>, Option<Seq<char>>)>) -> Seq<SuppressionKindModel>
    decreases cats.len(),
{
    if cats.len() == 0 {
        Seq::empty()
    } else {
        let prev = linter_suppressions(cats.drop_last());
        match suppression_kind_of(cats.last().0, cats.last().1) {
            Some(k) => prev.push(k),
            None => prev,
        }
    }
}

/// Whether `name` is exactly `lint`.
fn is_lint_category(name: &str) -> (b: bool)
    ensures
        b == (name@ == lint_category()),
{
    let n = name.unicode_len();
    if n != 4 {
        return false;
    }
    let b = name.get_char(0) == 'l' && name.get_char(1) == 'i' && name.get_char(2) == 'n'
        && name.get_char(3) == 't';
    if b {
        assert(name@ =~= lint_category());
    }
    b
}

/// `name` without its `lint/` prefix, where it has one.
fn strip_lint_rule_prefix(name: &str) -> (r: Option<String>)
    ensures
        r is Some <==> has_lint_rule_prefix(name@),
        r matches Some(s) ==> s@ == name@.skip(5),
{
    let n = name.unicode_len();
    if n < 5 {
        return None;
    }
    let b = name.get_char(0) == 'l' && name.get_char(1) == 'i' && name.get_char(2) == 'n'
        && name.get_char(3) == 't' && name.get_char(4) == '/';
    if b {
        assert(name@.take(5) =~= lint_rule_prefix());
        let rest = name.substring_char(5, n);
        assert(rest@ =~= name@.skip(5));
        Some(String::from_str(rest))
    } else {
        assert(name@.take(5)[0] == name@[0]);
        assert(name@.take(5)[1] == name@[1]);
        assert(name@.take(5)[2] == name@[2]);
        assert(name@.take(5)[3] == name@[3]);
        assert(name@.take(5)[4] == name@[4]);
        None
    }
}

/// The lint suppression asked for by one category, if any.
pub fn suppression_kind(category: &SuppressionCategory) -> (k: Option<SuppressionKind>)
    ensures
        match k {
            Some(k) => suppression_kind_of(category_model(*category).0, category_model(*category).1) == Some(k@),
            None => suppression_kind_of(category_model(*category).0, category_model(*category).1) is None,
        },
        // The same, read off the category itself.
        category.name@ == seq!['l', 'i', 'n', 't'] && category.value is None
            ==> k == Some(SuppressionKind::Everything),
        category.name@ == seq!['l', 'i', 'n', 't'] && category.value is Some
            ==> (k matches Some(SuppressionKind::MaybeLegacy(v)) && v@ == category.value->Some_0@),
        forall|p: Seq<char>| category.name@ == seq!['l', 'i', 'n', 't', '/'] + p
            ==> (k matches Some(SuppressionKind::Rule(r)) && r@ == p),
{
    proof {
        assert forall|p: Seq<char>| category.name@ == seq!['l', 'i', 'n', 't', '/'] + p implies
            suppression_kind_of(category.name@, category_model(*category).1)
                == Some(SuppressionKindModel::Rule(p)) by {
            lemma_lint_rule_path(p, category_model(*category).1);
        }
    }
    if is_lint_category(category.name.as_str()) {
        match &category.value {
            Some(v) => Some(SuppressionKind::MaybeLegacy(v.clone())),
            None => Some(SuppressionKind::Everything),
        }
    } else {
        match strip_lint_rule_prefix(category.name.as_str()) {
            Some(rule) => Some(SuppressionKind::Rule(rule)),
            None => None,
        }
    }
}

/// The lint suppressions asked for by the categories of the suppression comments
/// of one comment text, in the order in which the categories stand.
pub fn linter_suppression_kinds(categories: &Vec<SuppressionCategory>) -> (kinds: Vec<SuppressionKind>)
    ensures
        kinds@.map_values(|k: SuppressionKind| k@) == linter_suppressions(
            categories@.map_values(|c: SuppressionCategory| category_model(c)),
        ),
{
    let ghost cats = categories@.map_values(|c: SuppressionCategory| category_model(c));
    let mut kinds: Vec<SuppressionKind> = Vec::new();
    let mut i: usize = 0;
    while i < categories.len()
        invariant
            i <= categories.len(),
            cats == categories@.map_values(|c: SuppressionCategory| category_model(c)),
            kinds@.map_values(|k: SuppressionKind| k@) == linter_suppressions(cats.take(i as int)),
        decreases categories.len() - i,
    {
        let k = suppression_kind(&categories[i]);
        proof {
            assert(cats.take(i + 1).drop_last() =~= cats.take(i as int));
            assert(cats.take(i + 1).last() == cats[i as int]);
        }
        match k {
            Some(k) => {
                kinds.push(k);
            },
            None => {},
        }
        proof {
            assert(kinds@.map_values(|k: SuppressionKind| k@) =~= linter_suppressions(cats.take(i + 1)));
        }
        i = i + 1;
    }
    assert(cats.take(categories.len() as int) =~= cats);
    kinds
}

/// The suppressions of categories that stand one after the other (as those of
/// successive comments of one text do) are those of each part, in order.
pub proof fn lemma_linter_suppressions_concat(
    a: Seq<(Seq<char>, Option<Seq<char>>)>,
    b: Seq<(Seq<char>, Option<Seq<char>>)>,
)
    ensures
        linter_suppressions(a + b) == linter_suppressions(a) + linter_suppressions(b),
    decreases b.len(),
{
    if b.len() == 0 {
        assert(a + b =~= a);
        assert(linter_suppressions(a) + linter_suppressions(b) =~= linter_suppressions(a));
    } else {
        lemma_linter_suppressions_concat(a, b.drop_last());
        assert((a + b).drop_last() =~= a + b.drop_last());
        assert((a + b).last() == b.last());
        match suppression_kind_of(b.last().0, b.last().1) {
            Some(k) => {
                assert(linter_suppressions(a + b) =~= linter_suppressions(a) + linter_suppressions(b));
            },
            None => {},
        }
    }
}

/// Each category gives at most one suppression.
pub proof fn lemma_linter_suppressions_len(cats: Seq<(Seq<char>, Option<Seq<char>>)>)
    ensures
        linter_suppressions(cats).len() <= cats.len(),
    decreases cats.len(),
{
    if cats.len() > 0 {
        lemma_linter_suppressions_len(cats.drop_last());
    }
}

/// A category other than `lint` and `lint/...` suppresses nothing: adding it
/// changes no suppression.
pub proof fn lemma_other_category_ignored(
    cats: Seq<(Seq<char>, Option<Seq<char>>)>,
    name: Seq<char>,
    value: Option<Seq<char>>,
)
    requires
        name != lint_category(),
        !has_lint_rule_prefix(name),
    ensures
        linter_suppressions(cats.push((name, value))) == linter_suppressions(cats),
{
    assert(cats.push((name, value)).drop_last() =~= cats);
}

/// The `lint` category alone suppresses every rule; with a value it asks for
/// what the value names, the value carried over unchanged, whatever it is.
pub proof fn lemma_lint_category_kinds(v: Seq<char>)
    ensures
        suppression_kind_of(seq!['l', 'i', 'n', 't'], None) == Some(SuppressionKindModel::Everything),
        suppression_kind_of(seq!['l', 'i', 'n', 't'], Some(v)) == Some(SuppressionKindModel::MaybeLegacy(v)),
{
    assert(seq!['l', 'i', 'n', 't'] =~= lint_category());
}

/// A category `lint/<p>` asks for the rule or group at path `p`, whatever its
/// value.
pub proof fn lemma_lint_rule_path(p: Seq<char>, value: Option<Seq<char>>)
    ensures
        suppression_kind_of(seq!['l', 'i', 'n', 't', '/'] + p, value) == Some(SuppressionKindModel::Rule(p)),
{
    let name = seq!['l', 'i', 'n', 't', '/'] + p;
    assert(name.take(5) =~= lint_rule_prefix());
    assert(name.skip(5) =~= p);
    assert(name.len() != 4);
    assert(name != lint_category());
}

/// A value is never dropped: a category with a value never suppresses
/// everything, and where it gives a legacy suppression, that holds the value.
pub proof fn lemma_value_never_dropped(name: Seq<char>, v: Seq<char>)
    ensures
        suppression_kind_of(name, Some(v)) != Some(SuppressionKindModel::Everything),
        suppression_kind_of(name, Some(v)) matches Some(SuppressionKindModel::MaybeLegacy(w)) ==> w == v,
{
}

} // verus!
