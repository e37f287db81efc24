//! Parameterised statements handed to the database.

use vstd::prelude::*;
use vstd::string::*;
use crate::post::ContentType;
use crate::text::{join, repeat_joined, spec_join, spec_repeat_joined};

verus! {

/// A value bound to one `?` of a statement.
#[derive(Debug, PartialEq, Eq)]
pub enum SqlValue {
    Text(String),
    Integer(i64),
    Blob(Vec<u8>),
}

/// What a `SqlValue` is, as plain values.
pub enum SqlValueView {
    Text(Seq<char>),
    Integer(int),
    Blob(Seq<u8>),
}

impl View for SqlValue {
    type V = SqlValueView;

    open spec fn view(&self) -> SqlValueView {
        match self {
            SqlValue::Text(s) => SqlValueView::Text(s@),
            SqlValue::Integer(n) => SqlValueView::Integer(*n as int),
            SqlValue::Blob(bytes) => SqlValueView::Blob(bytes@),
        }
    }
}

impl DeepView for SqlValue {
    type V = SqlValueView;

    open spec fn deep_view(&self) -> SqlValueView {
        self@
    }
}

/// The text values `texts`, each as a bound value.
pub open spec fn spec_text_values(texts: Seq<Seq<char>>) -> Seq<SqlValueView> {
    Seq::new(texts.len(), |i: int| SqlValueView::Text(texts[i]))
}

/// A statement and the values for its placeholders, in the order of the
/// placeholders.
#[derive(Debug, PartialEq, Eq)]
pub struct Statement {
    pub sql: String,
    pub params: Vec<SqlValue>,
}

/// What a `Statement` is, as plain values.
pub struct StatementView {
    pub sql: Seq<char>,
    pub params: Seq<SqlValueView>,
}

impl View for Statement {
    type V = StatementView;

    open spec fn view(&self) -> StatementView {
        StatementView { sql: self.sql@, params: self.params.deep_view() }
    }
}

impl DeepView for Statement {
    type V = StatementView;

    open spec fn deep_view(&self) -> StatementView {
        self@
    }
}

/// Binds each of `texts` as a text value, in order.
pub fn text_values(texts: &Vec<String>) -> (values: Vec<SqlValue>)
    ensures
        values.deep_view() == spec_text_values(texts.deep_view()),
{
    let mut values: Vec<SqlValue> = Vec::new();
    let mut i: usize = 0;
    while i < texts.len()
        invariant
            i <= texts.len(),
            values.len() == i,
            forall|j: int| 0 <= j < i ==> values[j]@ == SqlValueView::Text(texts[j]@),
        decreases texts.len() - i,
    {
        values.push(SqlValue::Text(texts[i].clone()));
        i += 1;
    }
    assert(values.deep_view() =~= spec_text_values(texts.deep_view()));
    values
}

/// One condition that a row has to meet.
#[derive(Debug, PartialEq, Eq)]
pub enum Predicate {
    /// The full-text index matches the text.
    FullText(String),
    /// The row's tag list holds the tag.
    HasTag(String),
    /// The row is dated on or after the date.
    DateFrom(String),
    /// The row is dated on or before the date.
    DateTo(String),
    /// The row's content type is one of the kinds.
    KindIn(Vec<ContentType>),
    /// The row is no special page.
    NotSpecial,
    /// The row is a special page.
    OnlySpecial,
    /// The row has the id.
    IdIs(String),
}

/// What a `Predicate` is, as plain values.
pub enum PredicateView {
    FullText(Seq<char>),
    HasTag(Seq<char>),
    DateFrom(Seq<char>),
    DateTo(Seq<char>),
    KindIn(Seq<ContentType>),
    NotSpecial,
    OnlySpecial,
    IdIs(Seq<char>),
}

impl View for Predicate {
    type V = PredicateView;

    open spec fn view(&self) -> PredicateView {
        match self {
            Predicate::FullText(text) => PredicateView::FullText(text@),
            Predicate::HasTag(tag) => PredicateView::HasTag(tag@),
            Predicate::DateFrom(date) => PredicateView::DateFrom(date@),
            Predicate::DateTo(date) => PredicateView::DateTo(date@),
            Predicate::KindIn(kinds) => PredicateView::KindIn(kinds@),
            Predicate::NotSpecial => PredicateView::NotSpecial,
            Predicate::OnlySpecial => PredicateView::OnlySpecial,
            Predicate::IdIs(id) => PredicateView::IdIs(id@),
        }
    }
}

impl DeepView for Predicate {
    type V = PredicateView;

    open spec fn deep_view(&self) -> PredicateView {
        self@
    }
}

/// The stored names of `kinds`, in order.
pub open spec fn spec_kind_names(kinds: Seq<ContentType>) -> Seq<Seq<char>> {
    Seq::new(kinds.len(), |i: int| kinds[i].spec_name())
}

impl PredicateView {
    /// The condition as the database reads it, with `?` for each value.
    pub open spec fn condition(self) -> Seq<char> {
        match self {
            PredicateView::FullText(_) => "posts_fts MATCH ?"@,
            PredicateView::HasTag(_) =>
                "EXISTS (SELECT 1 FROM json_each(posts.tags) WHERE value = ?)"@,
            PredicateView::DateFrom(_) => "posts.date >= ?"@,
            PredicateView::DateTo(_) => "posts.date <= ?"@,
            PredicateView::KindIn(kinds) => "posts.content_type IN ("@ + spec_repeat_joined(
                "?"@,
                ", "@,
                kinds.len(),
            ) + ")"@,
            PredicateView::NotSpecial => "posts.content_type != 'special'"@,
            PredicateView::OnlySpecial => "posts.content_type = 'special'"@,
            PredicateView::IdIs(_) => "posts.id = ?"@,
        }
    }

    /// The values for the `?` of the condition, in order.
    pub open spec fn values(self) -> Seq<SqlValueView> {
        match self {
            PredicateView::FullText(text) => seq![SqlValueView::Text(text)],
            PredicateView::HasTag(tag) => seq![SqlValueView::Text(tag)],
            PredicateView::DateFrom(date) => seq![SqlValueView::Text(date)],
            PredicateView::DateTo(date) => seq![SqlValueView::Text(date)],
            PredicateView::KindIn(kinds) => spec_text_values(spec_kind_names(kinds)),
            PredicateView::NotSpecial => Seq::empty(),
            PredicateView::OnlySpecial => Seq::empty(),
            PredicateView::IdIs(id) => seq![SqlValueView::Text(id)],
        }
    }

    /// Whether the condition lets a row pass whose content type is stored
    /// under `stored`, as far as the content type goes.
    pub open spec fn admits(self, stored: Seq<char>) -> bool {
        match self {
            PredicateView::KindIn(kinds) => spec_kind_names(kinds).contains(stored),
            PredicateView::NotSpecial => stored != "special"@,
            PredicateView::OnlySpecial => stored == "special"@,
            _ => true,
        }
    }
}

/// The conditions of `predicates`, in order.
pub open spec fn spec_conditions(predicates: Seq<PredicateView>) -> Seq<Seq<char>> {
    Seq::new(predicates.len(), |i: int| predicates[i].condition())
}

/// The values of `predicates`, those of the first condition first.
pub open spec fn spec_bound_values(predicates: Seq<PredicateView>) -> Seq<SqlValueView>
    decreases predicates.len(),
{
    if predicates.len() == 0 {
        Seq::empty()
    } else {
        spec_bound_values(predicates.drop_last()) + predicates.last().values()
    }
}

/// The `WHERE` clause that asks for all of `predicates`; no clause where
/// there is no predicate.
pub open spec fn spec_where(predicates: Seq<PredicateView>) -> Seq<char> {
    if predicates.len() == 0 {
        Seq::empty()
    } else {
        "WHERE "@ + spec_join(spec_conditions(predicates), " AND "@)
    }
}

/// Whether all of `predicates` let a row pass whose content type is stored
/// under `stored`, as far as the content type goes.
pub open spec fn spec_admits(predicates: Seq<PredicateView>, stored: Seq<char>) -> bool {
    forall|i: int| 0 <= i < predicates.len() ==> (#[trigger] predicates[i]).admits(stored)
}

/// The names of `kinds`, each as a bound value.
fn kind_values(kinds: &Vec<ContentType>) -> (values: Vec<SqlValue>)
    ensures
        values.deep_view() == spec_text_values(spec_kind_names(kinds@)),
{
    let mut values: Vec<SqlValue> = Vec::new();
    let mut i: usize = 0;
    while i < kinds.len()
        invariant
            i <= kinds.len(),
            values.len() == i,
            forall|j: int| 0 <= j < i ==> values[j]@ == SqlValueView::Text(kinds[j].spec_name()),
        decreases kinds.len() - i,
    {
        values.push(SqlValue::Text(String::from_str(kinds[i].name())));
        i += 1;
    }
    assert(values.deep_view() =~= spec_text_values(spec_kind_names(kinds@)));
    values
}

impl Predicate {
    /// The condition as the database reads it.
    pub fn condition(&self) -> (text: String)
        ensures
            text@ == self@.condition(),
    {
        match self {
            Predicate::FullText(_) => String::from_str("posts_fts MATCH ?"),
            Predicate::HasTag(_) => String::from_str(
                "EXISTS (SELECT 1 FROM json_each(posts.tags) WHERE value = ?)",
            ),
            Predicate::DateFrom(_) => String::from_str("posts.date >= ?"),
            Predicate::DateTo(_) => String::from_str("posts.date <= ?"),
            Predicate::KindIn(kinds) => {
                let marks = repeat_joined("?", ", ", kinds.len());
                let mut text = String::from_str("posts.content_type IN (");
                text.append(marks.as_str());
                text.append(")");
                text
            },
            Predicate::NotSpecial => String::from_str("posts.content_type != 'special'"),
            Predicate::OnlySpecial => String::from_str("posts.content_type = 'special'"),
            Predicate::IdIs(_) => String::from_str("posts.id = ?"),
        }
    }

    /// The values for the `?` of the condition, in order.
    pub fn values(&self) -> (values: Vec<SqlValue>)
        ensures
            values.deep_view() == self@.values(),
    {
        match self {
            Predicate::FullText(text) => one_text(text),
            Predicate::HasTag(tag) => one_text(tag),
            Predicate::DateFrom(date) => one_text(date),
            Predicate::DateTo(date) => one_text(date),
            Predicate::KindIn(kinds) => kind_values(kinds),
            Predicate::NotSpecial => {
                let values: Vec<SqlValue> = Vec::new();
                assert(values.deep_view() =~= Seq::<SqlValueView>::empty());
                values
            },
            Predicate::OnlySpecial => {
                let values: Vec<SqlValue> = Vec::new();
                assert(values.deep_view() =~= Seq::<SqlValueView>::empty());
                values
            },
            Predicate::IdIs(id) => one_text(id),
        }
    }
}

/// `text` as the only bound value.
fn one_text(text: &String) -> (values: Vec<SqlValue>)
    ensures
        values.deep_view() == seq![SqlValueView::Text(text@)],
{
    let mut values: Vec<SqlValue> = Vec::new();
    values.push(SqlValue::Text(text.clone()));
    assert(values.deep_view() =~= seq![SqlValueView::Text(text@)]);
    values
}

/// The `WHERE` clause that asks for all of `predicates`, and the values for
/// its placeholders.
pub fn render_where(predicates: &Vec<Predicate>) -> (rendered: (String, Vec<SqlValue>))
    ensures
        rendered.0@ == spec_where(predicates.deep_view()),
        rendered.1.deep_view() == spec_bound_values(predicates.deep_view()),
{
    let mut conditions: Vec<String> = Vec::new();
    let mut params: Vec<SqlValue> = Vec::new();
    let ghost all = predicates.deep_view();
    let mut i: usize = 0;
    while i < predicates.len()
        invariant
            i <= predicates.len(),
            all == predicates.deep_view(),
            conditions.deep_view() == spec_conditions(all.take(i as int)),
            params.deep_view() == spec_bound_values(all.take(i as int)),
        decreases predicates.len() - i,
    {
        proof {
            assert(all.take(i + 1).drop_last() == all.take(i as int));
            assert(all.take(i + 1).last() == predicates[i as int]@);
        }
        let ghost conditions_before = conditions.deep_view();
        conditions.push(predicates[i].condition());
        assert(conditions.deep_view() =~= conditions_before.push(predicates[i as int]@.condition()));
        assert(conditions.deep_view() =~= spec_conditions(all.take(i + 1)));
        let mut values = predicates[i].values();
        let ghost params_before = params.deep_view();
        let ghost added = values.deep_view();
        params.append(&mut values);
        assert(params.deep_view() =~= params_before + added);
        i += 1;
    }
    assert(all.take(predicates.len() as int) == all);
    if conditions.len() == 0 {
        (String::new(), params)
    } else {
        let mut clause = String::from_str("WHERE ");
        let joined = join(&conditions, " AND ");
        clause.append(joined.as_str());
        (clause, params)
    }
}

} // verus!
