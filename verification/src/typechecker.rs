//! Type checking of the expressions of a model: the pass that finds the
//! literals of enums among the field selections and gives them their types.

use vstd::prelude::*;
use crate::text::{concat2, concat3, lemma_last_index_of_is, lemma_last_index_of_none, str_eq};
use crate::value::{lookup, names_of};

verus! {

/// A stretch of the text of a model.
#[derive(Clone, Copy, Debug, PartialEq, Eq, Structural)]
pub struct Span {
    pub low: u64,
    pub high: u64,
}

/// What a composite type is declared as.
#[derive(Clone, Copy, Debug, PartialEq, Eq, Structural)]
pub enum AstModelKind {
    Type,
    Context,
}

/// The type of an expression, as far as it is known.
#[derive(Clone, Debug, PartialEq, Eq)]
pub enum Type {
    /// Not known yet.
    Defer,
    /// Found to be wrong.
    Error,
    Primitive(String),
    /// An enum, with its variants.
    Enum { name: String, fields: Vec<String> },
    Composite { name: String, kind: AstModelKind },
}

/// The view of a [`Type`].
pub enum TypeView {
    Defer,
    Error,
    Primitive(Seq<char>),
    Enum { name: Seq<char>, fields: Seq<Seq<char>> },
    Composite { name: Seq<char>, kind: AstModelKind },
}

/// The views of a list of strings.
pub open spec fn name_views(items: Seq<String>) -> Seq<Seq<char>> {
    Seq::new(items.len(), |i: int| items[i]@)
}

impl View for Type {
    type V = TypeView;

    open spec fn view(&self) -> TypeView {
        match self {
            Type::Defer => TypeView::Defer,
            Type::Error => TypeView::Error,
            Type::Primitive(n) => TypeView::Primitive(n@),
            Type::Enum { name, fields } => TypeView::Enum { name: name@, fields: name_views(fields@) },
            Type::Composite { name, kind } => TypeView::Composite { name: name@, kind: *kind },
        }
    }
}

/// A copy of a list of strings.
pub fn duplicate_names(items: &Vec<String>) -> (r: Vec<String>)
    ensures
        name_views(r@) == name_views(items@),
{
    let mut out: Vec<String> = Vec::new();
    let mut i: usize = 0;
    while i < items.len()
        invariant
            i <= items.len(),
            out@.len() == i,
            forall|j: int| 0 <= j < i ==> out@[j]@ == items@[j]@,
        decreases items.len() - i,
    {
        out.push(items[i].clone());
        i += 1;
    }
    assert(name_views(out@) =~= name_views(items@));
    out
}

impl Type {
    /// Whether the type is not known yet.
    pub fn is_incomplete(&self) -> (r: bool)
        ensures
            r == (self@ is Defer),
    {
        match self {
            Type::Defer => true,
            _ => false,
        }
    }

    /// A copy of this type.
    pub fn duplicate(&self) -> (r: Type)
        ensures
            r@ == self@,
    {
        match self {
            Type::Defer => Type::Defer,
            Type::Error => Type::Error,
            Type::Primitive(n) => Type::Primitive(n.clone()),
            Type::Enum { name, fields } => Type::Enum {
                name: name.clone(),
                fields: duplicate_names(fields),
            },
            Type::Composite { name, kind } => Type::Composite { name: name.clone(), kind: *kind },
        }
    }
}

/// How grave a finding is.
#[derive(Clone, Copy, Debug, PartialEq, Eq, Structural)]
pub enum Level {
    Error,
    Warning,
}

/// How a span of a finding is shown.
#[derive(Clone, Copy, Debug, PartialEq, Eq, Structural)]
pub enum SpanStyle {
    Primary,
    Secondary,
}

/// A span of a finding with what is said about it.
#[derive(Clone, Debug, PartialEq, Eq)]
pub struct SpanLabel {
    pub span: Span,
    pub style: SpanStyle,
    pub label: Option<String>,
}

/// A finding of the type checker.
#[derive(Clone, Debug, PartialEq, Eq)]
pub struct Diagnostic {
    pub level: Level,
    pub message: String,
    pub code: Option<String>,
    pub spans: Vec<SpanLabel>,
}

/// The view of a [`SpanLabel`].
pub struct SpanLabelView {
    pub span: Span,
    pub style: SpanStyle,
    pub label: Option<Seq<char>>,
}

/// The view of a [`Diagnostic`].
pub struct DiagnosticView {
    pub level: Level,
    pub message: Seq<char>,
    pub code: Option<Seq<char>>,
    pub spans: Seq<SpanLabelView>,
}

impl View for SpanLabel {
    type V = SpanLabelView;

    open spec fn view(&self) -> SpanLabelView {
        SpanLabelView {
            span: self.span,
            style: self.style,
            label: crate::field::text_option_view(self.label),
        }
    }
}

/// The views of a list of span labels.
pub open spec fn label_views(items: Seq<SpanLabel>) -> Seq<SpanLabelView> {
    Seq::new(items.len(), |i: int| items[i]@)
}

impl View for Diagnostic {
    type V = DiagnosticView;

    open spec fn view(&self) -> DiagnosticView {
        DiagnosticView {
            level: self.level,
            message: self.message@,
            code: crate::field::text_option_view(self.code),
            spans: label_views(self.spans@),
        }
    }
}

/// The views of a list of findings.
pub open spec fn diagnostic_views(items: Seq<Diagnostic>) -> Seq<DiagnosticView> {
    Seq::new(items.len(), |i: int| items[i]@)
}

/// Types by name: the types of a model, or the names in reach of an expression.
pub type TypeEnv = Vec<(String, Type)>;

/// The views of named types.
pub open spec fn env_views(env: Seq<(String, Type)>) -> Seq<(Seq<char>, TypeView)> {
    Seq::new(env.len(), |i: int| (env[i].0@, env[i].1@))
}

/// The type that `env` holds under `name`: the last of that name.
pub fn get_by_key<'a>(env: &'a Vec<(String, Type)>, name: &str) -> (r: Option<&'a Type>)
    ensures
        match r {
            Some(t) => lookup(env_views(env@), name@) == Some(t@),
            None => lookup(env_views(env@), name@).is_none(),
        },
{
    let mut i: usize = env.len();
    while i > 0
        invariant
            i <= env.len(),
            forall|j: int| i <= j < env.len() ==> env@[j].0@ != name@,
        decreases i,
    {
        i -= 1;
        if str_eq(env[i].0.as_str(), name) {
            proof {
                lemma_last_index_of_is(names_of(env_views(env@)), name@, i as int);
            }
            return Some(&env[i].1);
        }
    }
    proof {
        lemma_last_index_of_none(names_of(env_views(env@)), name@);
    }
    None
}

/// One name of a field selection.
#[derive(Clone, Debug, PartialEq, Eq)]
pub enum FieldSelectionElement {
    Identifier(String, Span, Type),
    /// A call of a function of the name.
    Call(String, Span),
}

/// The view of a [`FieldSelectionElement`].
pub enum ElementView {
    Identifier(Seq<char>, Span, TypeView),
    Call(Seq<char>, Span),
}

impl View for FieldSelectionElement {
    type V = ElementView;

    open spec fn view(&self) -> ElementView {
        match self {
            FieldSelectionElement::Identifier(n, s, t) => ElementView::Identifier(n@, *s, t@),
            FieldSelectionElement::Call(n, s) => ElementView::Call(n@, *s),
        }
    }
}

/// A path of names, such as `self.owner.id` or `Status.ACTIVE`.
#[derive(Debug, PartialEq, Eq)]
pub enum FieldSelection {
    Single(FieldSelectionElement, Type),
    Select(Box<FieldSelection>, FieldSelectionElement, Span, Type),
}

/// The view of a [`FieldSelection`].
pub enum SelectionView {
    Single(ElementView, TypeView),
    Select(Box<SelectionView>, ElementView, Span, TypeView),
}

/// The view of a field selection.
pub open spec fn selection_view(s: FieldSelection) -> SelectionView
    decreases s,
{
    match s {
        FieldSelection::Single(e, t) => SelectionView::Single(e@, t@),
        FieldSelection::Select(prefix, e, span, t) => SelectionView::Select(
            Box::new(selection_view(*prefix)),
            e@,
            span,
            t@,
        ),
    }
}

impl View for FieldSelection {
    type V = SelectionView;

    open spec fn view(&self) -> SelectionView {
        selection_view(*self)
    }
}

/// The parts of an enum literal that a field selection may be: a selection
/// of two names, the enum and its variant.
pub open spec fn literal_parts(selection: SelectionView) -> Option<(Seq<char>, Seq<char>, Span)> {
    match selection {
        SelectionView::Select(prefix, ElementView::Identifier(value, _, _), span, _) => match *prefix {
            SelectionView::Single(ElementView::Identifier(enum_name, _, _), _) => Some(
                (enum_name, value, span),
            ),
            _ => None,
        },
        _ => None,
    }
}

/// Takes a field selection apart as an enum literal, if it has the form of one.
pub fn enum_literal_parts(selection: &FieldSelection) -> (r: Option<(String, String, Span)>)
    ensures
        match r {
            Some((enum_name, value, span)) => literal_parts(selection@) == Some(
                (enum_name@, value@, span),
            ),
            None => literal_parts(selection@).is_none(),
        },
{
    proof {
        reveal_with_fuel(selection_view, 3);
    }
    match selection {
        FieldSelection::Select(prefix, elem, span, _) => match (&**prefix, elem) {
            (
                FieldSelection::Single(prefix_elem, _),
                FieldSelectionElement::Identifier(value, _, _),
            ) => {
                match prefix_elem {
                    FieldSelectionElement::Identifier(enum_name, _, _) => Some(
                        (enum_name.clone(), value.clone(), *span),
                    ),
                    _ => None,
                }
            },
            _ => None,
        },
        _ => None,
    }
}

/// The message for a name that is no variant of an enum.
pub open spec fn unknown_variant_message(value: Seq<char>, enum_name: Seq<char>) -> Seq<char> {
    ("Unknown variant '"@ + value + "' for enum '"@) + enum_name + "'"@
}

/// The finding for a name that is no variant of an enum.
pub open spec fn unknown_variant(value: Seq<char>, enum_name: Seq<char>, span: Span) -> DiagnosticView {
    DiagnosticView {
        level: Level::Error,
        message: unknown_variant_message(value, enum_name),
        code: Some("C000"@),
        spans: seq![
            SpanLabelView {
                span,
                style: SpanStyle::Primary,
                label: Some("unknown enum variant"@),
            },
        ],
    }
}

/// The type of `enum_name.value` as an enum literal, with the findings so
/// far. A name in reach of the expression, or the name of a context, is no
/// enum, and neither is a name that the model has no enum for: these are no
/// enum literals. A variant of the enum has the type of the enum; any other
/// name is an error and is reported.
pub open spec fn resolved_enum(
    enum_name: Seq<char>,
    value: Seq<char>,
    span: Span,
    type_env: Seq<(Seq<char>, TypeView)>,
    scope: Seq<(Seq<char>, TypeView)>,
    errors: Seq<DiagnosticView>,
) -> (Option<TypeView>, Seq<DiagnosticView>) {
    if lookup(scope, enum_name) is Some {
        (None, errors)
    } else {
        match lookup(type_env, enum_name) {
            Some(TypeView::Enum { name, fields }) => if fields.contains(value) {
                (Some(TypeView::Enum { name, fields }), errors)
            } else {
                (Some(TypeView::Error), errors.push(unknown_variant(value, enum_name, span)))
            },
            _ => (None, errors),
        }
    }
}

/// Gives `enum_name.value` its type as an enum literal, if it is one.
pub fn resolve_enum_literal(
    enum_name: &str,
    value: &str,
    span: Span,
    type_env: &Vec<(String, Type)>,
    scope: &Vec<(String, Type)>,
    errors: &mut Vec<Diagnostic>,
) -> (r: Option<Type>)
    ensures
        (
            match r {
                Some(t) => Some(t@),
                None => None,
            },
            diagnostic_views(final(errors)@),
        ) == resolved_enum(
            enum_name@,
            value@,
            span,
            env_views(type_env@),
            env_views(scope@),
            diagnostic_views(old(errors)@),
        ),
{
    if get_by_key(scope, enum_name).is_some() {
        return None;
    }
    let is_context = match get_by_key(type_env, enum_name) {
        Some(Type::Composite { kind: AstModelKind::Context, .. }) => true,
        _ => false,
    };
    if is_context {
        return None;
    }
    let (name, fields) = match get_by_key(type_env, enum_name) {
        Some(Type::Enum { name, fields }) => (name, fields),
        _ => {
            return None;
        },
    };
    if crate::planner_access::contains_name(fields, value) {
        Some(Type::Enum { name: name.clone(), fields: duplicate_names(fields) })
    } else {
        let ghost before = errors@;
        let mut spans: Vec<SpanLabel> = Vec::new();
        spans.push(
            SpanLabel {
                span,
                style: SpanStyle::Primary,
                label: Some("unknown enum variant".to_owned()),
            },
        );
        let diagnostic = Diagnostic {
            level: Level::Error,
            message: concat3(
                concat3("Unknown variant '", value, "' for enum '").as_str(),
                enum_name,
                "'",
            ),
            code: Some("C000".to_owned()),
            spans,
        };
        proof {
            assert(diagnostic@.spans =~= unknown_variant(value@, enum_name@, span).spans);
        }
        errors.push(diagnostic);
        proof {
            assert(diagnostic_views(errors@) =~= diagnostic_views(before).push(diagnostic@));
            assert(crate::select::text_views(fields@) =~= name_views(fields@));
        }
        Some(Type::Error)
    }
}

/// An expression that combines truth values.
#[derive(Debug, PartialEq, Eq)]
pub enum LogicalOp {
    Not(Box<AstExpr>, Span),
    And(Box<AstExpr>, Box<AstExpr>, Span),
    Or(Box<AstExpr>, Box<AstExpr>, Span),
}

/// How two values are compared.
#[derive(Clone, Copy, Debug, PartialEq, Eq, Structural)]
pub enum RelationalKind {
    Eq,
    Neq,
    Lt,
    Lte,
    Gt,
    Gte,
    In,
}

/// An expression that compares two values.
#[derive(Debug, PartialEq, Eq)]
pub struct RelationalOp {
    pub kind: RelationalKind,
    pub left: Box<AstExpr>,
    pub right: Box<AstExpr>,
}

/// An expression of a model.
#[derive(Debug, PartialEq, Eq)]
pub enum AstExpr {
    FieldSelection(FieldSelection),
    LogicalOp(LogicalOp),
    RelationalOp(RelationalOp),
    /// The variant of an enum: the enum, the variant, where it stands, and its type.
    EnumLiteral(String, String, Span, Type),
    StringLiteral(String, Span),
    BooleanLiteral(bool, Span),
    NumberLiteral(String, Span),
    StringList(Vec<String>, Vec<Span>),
    NullLiteral(Span),
    ObjectLiteral(Vec<(String, AstExpr)>, Span),
}

/// The view of a [`LogicalOp`].
pub enum LogicalView {
    Not(Box<ExprView>, Span),
    And(Box<ExprView>, Box<ExprView>, Span),
    Or(Box<ExprView>, Box<ExprView>, Span),
}

/// The view of a [`RelationalOp`].
pub struct RelationalView {
    pub kind: RelationalKind,
    pub left: Box<ExprView>,
    pub right: Box<ExprView>,
}

/// The view of an [`AstExpr`].
pub enum ExprView {
    FieldSelection(SelectionView),
    LogicalOp(LogicalView),
    RelationalOp(RelationalView),
    EnumLiteral(Seq<char>, Seq<char>, Span, TypeView),
    StringLiteral(Seq<char>, Span),
    BooleanLiteral(bool, Span),
    NumberLiteral(Seq<char>, Span),
    StringList(Seq<Seq<char>>, Seq<Span>),
    NullLiteral(Span),
    ObjectLiteral(Seq<(Seq<char>, ExprView)>, Span),
}

/// The view of an expression.
pub open spec fn expr_view(e: AstExpr) -> ExprView
    decreases e,
{
    match e {
        AstExpr::FieldSelection(s) => ExprView::FieldSelection(s@),
        AstExpr::LogicalOp(l) => ExprView::LogicalOp(logical_view(l)),
        AstExpr::RelationalOp(r) => ExprView::RelationalOp(
            RelationalView {
                kind: r.kind,
                left: Box::new(expr_view(*r.left)),
                right: Box::new(expr_view(*r.right)),
            },
        ),
        AstExpr::EnumLiteral(n, v, s, t) => ExprView::EnumLiteral(n@, v@, s, t@),
        AstExpr::StringLiteral(v, s) => ExprView::StringLiteral(v@, s),
        AstExpr::BooleanLiteral(v, s) => ExprView::BooleanLiteral(v, s),
        AstExpr::NumberLiteral(v, s) => ExprView::NumberLiteral(v@, s),
        AstExpr::StringList(v, s) => ExprView::StringList(name_views(v@), s@),
        AstExpr::NullLiteral(s) => ExprView::NullLiteral(s),
        AstExpr::ObjectLiteral(members, s) => ExprView::ObjectLiteral(
            Seq::new(
                members@.len(),
                |i: int|
                    if 0 <= i < members@.len() {
                        (members@[i].0@, expr_view(members@[i].1))
                    } else {
                        (Seq::empty(), ExprView::NullLiteral(s))
                    },
            ),
            s,
        ),
    }
}

/// The view of a logical expression.
pub open spec fn logical_view(l: LogicalOp) -> LogicalView
    decreases l,
{
    match l {
        LogicalOp::Not(inner, s) => LogicalView::Not(Box::new(expr_view(*inner)), s),
        LogicalOp::And(a, b, s) => LogicalView::And(
            Box::new(expr_view(*a)),
            Box::new(expr_view(*b)),
            s,
        ),
        LogicalOp::Or(a, b, s) => LogicalView::Or(
            Box::new(expr_view(*a)),
            Box::new(expr_view(*b)),
            s,
        ),
    }
}

impl View for AstExpr {
    type V = ExprView;

    open spec fn view(&self) -> ExprView {
        expr_view(*self)
    }
}

impl View for LogicalOp {
    type V = LogicalView;

    open spec fn view(&self) -> LogicalView {
        logical_view(*self)
    }
}

impl View for RelationalOp {
    type V = RelationalView;

    open spec fn view(&self) -> RelationalView {
        RelationalView { kind: self.kind, left: Box::new(self.left@), right: Box::new(self.right@) }
    }
}

/// The views of the members of an object literal.
pub open spec fn member_views(members: Seq<(String, AstExpr)>) -> Seq<(Seq<char>, ExprView)> {
    Seq::new(members.len(), |i: int| (members[i].0@, members[i].1@))
}

/// The view of an object literal is the list of its members' views.
pub proof fn lemma_object_literal_view(members: Vec<(String, AstExpr)>, span: Span)
    ensures
        AstExpr::ObjectLiteral(members, span)@ == ExprView::ObjectLiteral(
            member_views(members@),
            span,
        ),
{
    assert(AstExpr::ObjectLiteral(members, span)@->ObjectLiteral_0 =~= member_views(members@));
}

/// A name of a field selection before its type is known.
pub open spec fn shallow_element(e: ElementView) -> ElementView {
    match e {
        ElementView::Identifier(n, s, _) => ElementView::Identifier(n, s, TypeView::Defer),
        ElementView::Call(n, s) => ElementView::Call(n, s),
    }
}

/// A field selection before any of its types is known.
pub open spec fn shallow_selection(s: SelectionView) -> SelectionView
    decreases s,
{
    match s {
        SelectionView::Single(e, _) => SelectionView::Single(shallow_element(e), TypeView::Defer),
        SelectionView::Select(prefix, e, span, _) => SelectionView::Select(
            Box::new(shallow_selection(*prefix)),
            shallow_element(e),
            span,
            TypeView::Defer,
        ),
    }
}

/// An expression before any of its types is known: the same expression
/// with every type deferred.
pub open spec fn shallow_expr(e: ExprView) -> ExprView
    decreases e,
{
    match e {
        ExprView::FieldSelection(s) => ExprView::FieldSelection(shallow_selection(s)),
        ExprView::LogicalOp(LogicalView::Not(inner, s)) => ExprView::LogicalOp(
            LogicalView::Not(Box::new(shallow_expr(*inner)), s),
        ),
        ExprView::LogicalOp(LogicalView::And(a, b, s)) => ExprView::LogicalOp(
            LogicalView::And(Box::new(shallow_expr(*a)), Box::new(shallow_expr(*b)), s),
        ),
        ExprView::LogicalOp(LogicalView::Or(a, b, s)) => ExprView::LogicalOp(
            LogicalView::Or(Box::new(shallow_expr(*a)), Box::new(shallow_expr(*b)), s),
        ),
        ExprView::RelationalOp(r) => ExprView::RelationalOp(
            RelationalView {
                kind: r.kind,
                left: Box::new(shallow_expr(*r.left)),
                right: Box::new(shallow_expr(*r.right)),
            },
        ),
        ExprView::EnumLiteral(n, v, s, _) => ExprView::EnumLiteral(n, v, s, TypeView::Defer),
        ExprView::ObjectLiteral(members, s) => ExprView::ObjectLiteral(
            Seq::new(
                members.len(),
                |i: int|
                    if 0 <= i < members.len() {
                        (members[i].0, shallow_expr(members[i].1))
                    } else {
                        (Seq::empty(), ExprView::NullLiteral(s))
                    },
            ),
            s,
        ),
        other => other,
    }
}

fn shallow_name(e: &FieldSelectionElement) -> (r: FieldSelectionElement)
    ensures
        r@ == shallow_element(e@),
{
    match e {
        FieldSelectionElement::Identifier(n, s, _) => FieldSelectionElement::Identifier(
            n.clone(),
            *s,
            Type::Defer,
        ),
        FieldSelectionElement::Call(n, s) => FieldSelectionElement::Call(n.clone(), *s),
    }
}

impl FieldSelection {
    /// The selection with every type deferred.
    pub fn shallow(untyped: &FieldSelection) -> (r: FieldSelection)
        ensures
            r@ == shallow_selection(untyped@),
        decreases untyped,
    {
        match untyped {
            FieldSelection::Single(e, _) => FieldSelection::Single(shallow_name(e), Type::Defer),
            FieldSelection::Select(prefix, e, span, _) => FieldSelection::Select(
                Box::new(FieldSelection::shallow(prefix)),
                shallow_name(e),
                *span,
                Type::Defer,
            ),
        }
    }
}

/// A copy of a list of spans.
fn duplicate_spans(spans: &Vec<Span>) -> (r: Vec<Span>)
    ensures
        r@ == spans@,
{
    let mut out: Vec<Span> = Vec::new();
    let mut i: usize = 0;
    while i < spans.len()
        invariant
            i <= spans.len(),
            out@ == spans@.take(i as int),
        decreases spans.len() - i,
    {
        out.push(spans[i]);
        assert(out@ =~= spans@.take(i + 1));
        i += 1;
    }
    assert(spans@.take(i as int) =~= spans@);
    out
}

impl AstExpr {
    /// The expression with every type deferred.
    pub fn shallow(untyped: &AstExpr) -> (r: AstExpr)
        ensures
            r@ == shallow_expr(untyped@),
        decreases untyped,
    {
        proof {
            reveal_with_fuel(expr_view, 2);
            reveal_with_fuel(logical_view, 2);
            reveal_with_fuel(shallow_expr, 2);
        }
        match untyped {
            AstExpr::FieldSelection(select) => AstExpr::FieldSelection(
                FieldSelection::shallow(select),
            ),
            AstExpr::LogicalOp(logic) => match logic {
                LogicalOp::Not(inner, s) => AstExpr::LogicalOp(
                    LogicalOp::Not(Box::new(AstExpr::shallow(inner)), *s),
                ),
                LogicalOp::And(a, b, s) => AstExpr::LogicalOp(
                    LogicalOp::And(
                        Box::new(AstExpr::shallow(a)),
                        Box::new(AstExpr::shallow(b)),
                        *s,
                    ),
                ),
                LogicalOp::Or(a, b, s) => AstExpr::LogicalOp(
                    LogicalOp::Or(
                        Box::new(AstExpr::shallow(a)),
                        Box::new(AstExpr::shallow(b)),
                        *s,
                    ),
                ),
            },
            AstExpr::RelationalOp(relation) => AstExpr::RelationalOp(
                RelationalOp {
                    kind: relation.kind,
                    left: Box::new(AstExpr::shallow(&relation.left)),
                    right: Box::new(AstExpr::shallow(&relation.right)),
                },
            ),
            AstExpr::EnumLiteral(enum_name, value, span, _) => AstExpr::EnumLiteral(
                enum_name.clone(),
                value.clone(),
                *span,
                Type::Defer,
            ),
            AstExpr::StringLiteral(v, s) => AstExpr::StringLiteral(v.clone(), *s),
            AstExpr::BooleanLiteral(v, s) => AstExpr::BooleanLiteral(*v, *s),
            AstExpr::NumberLiteral(v, s) => AstExpr::NumberLiteral(v.clone(), *s),
            AstExpr::StringList(v, s) => AstExpr::StringList(duplicate_names(v), duplicate_spans(s)),
            AstExpr::NullLiteral(s) => AstExpr::NullLiteral(*s),
            AstExpr::ObjectLiteral(m, s) => {
                let mut out: Vec<(String, AstExpr)> = Vec::new();
                let mut i: usize = 0;
                proof {
                    lemma_object_literal_view(*m, *s);
                }
                while i < m.len()
                    invariant
                        i <= m.len(),
                        out@.len() == i,
                        untyped is ObjectLiteral,
                        untyped->ObjectLiteral_0 == *m,
                        forall|j: int|
                            0 <= j < i ==> out@[j].0@ == m@[j].0@ && out@[j].1@ == shallow_expr(
                                m@[j].1@,
                            ),
                    decreases m.len() - i,
                {
                    proof {
                        assert(decreases_to!(*untyped => untyped->ObjectLiteral_0));
                        assert(decreases_to!(*m => m[i as int]));
                        assert(decreases_to!(m[i as int] => m[i as int].1));
                    }
                    out.push((m[i].0.clone(), AstExpr::shallow(&m[i].1)));
                    i += 1;
                }
                proof {
                    lemma_object_literal_view(out, *s);
                    assert(member_views(out@) =~= shallow_expr(untyped@)->ObjectLiteral_0);
                }
                AstExpr::ObjectLiteral(out, *s)
            },
        }
    }
}

/// An expression after one pass of the type checker, with the findings so
/// far and whether the pass found out anything.
///
/// A field selection that has the form of an enum literal and names a
/// variant of an enum of the model becomes that enum literal; one that names
/// no variant becomes an enum literal of the type `Error` and is reported. An
/// enum literal whose type is not known gets its type, or the type `Error`
/// where it is none. The two sides of a logical or relational expression are
/// passed in turn, the left one first. Nothing else is touched.
pub open spec fn passed(
    e: ExprView,
    type_env: Seq<(Seq<char>, TypeView)>,
    scope: Seq<(Seq<char>, TypeView)>,
    errors: Seq<DiagnosticView>,
) -> (ExprView, Seq<DiagnosticView>, bool)
    decreases e,
{
    match e {
        ExprView::FieldSelection(select) => match literal_parts(select) {
            Some((enum_name, value, span)) => match resolved_enum(
                enum_name,
                value,
                span,
                type_env,
                scope,
                errors,
            ) {
                (Some(typ), reported) => (
                    ExprView::EnumLiteral(enum_name, value, span, typ),
                    reported,
                    true,
                ),
                (None, reported) => (e, reported, false),
            },
            None => (e, errors, false),
        },
        ExprView::LogicalOp(LogicalView::Not(inner, s)) => {
            let (i, reported, changed) = passed(*inner, type_env, scope, errors);
            (ExprView::LogicalOp(LogicalView::Not(Box::new(i), s)), reported, changed)
        },
        ExprView::LogicalOp(LogicalView::And(a, b, s)) => {
            let (l, first, left_changed) = passed(*a, type_env, scope, errors);
            let (r, second, right_changed) = passed(*b, type_env, scope, first);
            (
                ExprView::LogicalOp(LogicalView::And(Box::new(l), Box::new(r), s)),
                second,
                left_changed || right_changed,
            )
        },
        ExprView::LogicalOp(LogicalView::Or(a, b, s)) => {
            let (l, first, left_changed) = passed(*a, type_env, scope, errors);
            let (r, second, right_changed) = passed(*b, type_env, scope, first);
            (
                ExprView::LogicalOp(LogicalView::Or(Box::new(l), Box::new(r), s)),
                second,
                left_changed || right_changed,
            )
        },
        ExprView::RelationalOp(relation) => {
            let (l, first, left_changed) = passed(*relation.left, type_env, scope, errors);
            let (r, second, right_changed) = passed(*relation.right, type_env, scope, first);
            (
                ExprView::RelationalOp(
                    RelationalView { kind: relation.kind, left: Box::new(l), right: Box::new(r) },
                ),
                second,
                left_changed || right_changed,
            )
        },
        ExprView::EnumLiteral(enum_name, value, span, typ) => if typ is Defer {
            match resolved_enum(enum_name, value, span, type_env, scope, errors) {
                (Some(resolved), reported) => (
                    ExprView::EnumLiteral(enum_name, value, span, resolved),
                    reported,
                    true,
                ),
                (None, reported) => (
                    ExprView::EnumLiteral(enum_name, value, span, TypeView::Error),
                    reported,
                    false,
                ),
            }
        } else {
            (e, errors, false)
        },
        _ => (e, errors, false),
    }
}

impl LogicalOp {
    /// Passes over the sides of the expression.
    pub fn pass(
        &mut self,
        type_env: &Vec<(String, Type)>,
        scope: &Vec<(String, Type)>,
        errors: &mut Vec<Diagnostic>,
    ) -> (changed: bool)
        ensures
            (ExprView::LogicalOp(final(self)@), diagnostic_views(final(errors)@), changed) == passed(
                ExprView::LogicalOp(old(self)@),
                env_views(type_env@),
                env_views(scope@),
                diagnostic_views(old(errors)@),
            ),
        decreases *old(self), 0nat,
    {
        match self {
            LogicalOp::Not(inner, _) => inner.pass(type_env, scope, errors),
            LogicalOp::And(a, b, _) => {
                let left = a.pass(type_env, scope, errors);
                let right = b.pass(type_env, scope, errors);
                left || right
            },
            LogicalOp::Or(a, b, _) => {
                let left = a.pass(type_env, scope, errors);
                let right = b.pass(type_env, scope, errors);
                left || right
            },
        }
    }
}

impl RelationalOp {
    /// Passes over the two sides of the comparison.
    pub fn pass(
        &mut self,
        type_env: &Vec<(String, Type)>,
        scope: &Vec<(String, Type)>,
        errors: &mut Vec<Diagnostic>,
    ) -> (changed: bool)
        ensures
            (
                ExprView::RelationalOp(final(self)@),
                diagnostic_views(final(errors)@),
                changed,
            ) == passed(
                ExprView::RelationalOp(old(self)@),
                env_views(type_env@),
                env_views(scope@),
                diagnostic_views(old(errors)@),
            ),
        decreases *old(self), 0nat,
    {
        let left = self.left.pass(type_env, scope, errors);
        let right = self.right.pass(type_env, scope, errors);
        left || right
    }
}

impl AstExpr {
    /// One pass of the type checker over the expression; tells whether the
    /// pass found out anything.
    pub fn pass(
        &mut self,
        type_env: &Vec<(String, Type)>,
        scope: &Vec<(String, Type)>,
        errors: &mut Vec<Diagnostic>,
    ) -> (changed: bool)
        ensures
            (final(self)@, diagnostic_views(final(errors)@), changed) == passed(
                old(self)@,
                env_views(type_env@),
                env_views(scope@),
                diagnostic_views(old(errors)@),
            ),
        decreases *old(self), 1nat,
    {
        match self {
            AstExpr::FieldSelection(select) => {
                match enum_literal_parts(select) {
                    Some((enum_name, value, span)) => {
                        match resolve_enum_literal(
                            enum_name.as_str(),
                            value.as_str(),
                            span,
                            type_env,
                            scope,
                            errors,
                        ) {
                            Some(typ) => {
                                *self = AstExpr::EnumLiteral(enum_name, value, span, typ);
                                true
                            },
                            None => false,
                        }
                    },
                    None => false,
                }
            },
            AstExpr::LogicalOp(logic) => logic.pass(type_env, scope, errors),
            AstExpr::RelationalOp(relation) => relation.pass(type_env, scope, errors),
            AstExpr::EnumLiteral(enum_name, value, span, typ) => {
                if typ.is_incomplete() {
                    match resolve_enum_literal(
                        enum_name.as_str(),
                        value.as_str(),
                        *span,
                        type_env,
                        scope,
                        errors,
                    ) {
                        Some(resolved) => {
                            *typ = resolved;
                            true
                        },
                        None => {
                            *typ = Type::Error;
                            false
                        },
                    }
                } else {
                    false
                }
            },
            AstExpr::StringList(_, _)
            | AstExpr::StringLiteral(_, _)
            | AstExpr::BooleanLiteral(_, _)
            | AstExpr::NumberLiteral(_, _)
            | AstExpr::NullLiteral(_)
            | AstExpr::ObjectLiteral(_, _) => false,
        }
    }
}

/// A pass only adds findings: the findings made before are all still there,
/// in their places.
pub proof fn lemma_pass_keeps_findings(
    e: ExprView,
    type_env: Seq<(Seq<char>, TypeView)>,
    scope: Seq<(Seq<char>, TypeView)>,
    errors: Seq<DiagnosticView>,
)
    ensures
        passed(e, type_env, scope, errors).1.len() >= errors.len(),
        passed(e, type_env, scope, errors).1.take(errors.len() as int) == errors,
    decreases e,
{
    let after = passed(e, type_env, scope, errors).1;
    match e {
        ExprView::LogicalOp(LogicalView::Not(inner, _)) => {
            lemma_pass_keeps_findings(*inner, type_env, scope, errors);
        },
        ExprView::LogicalOp(LogicalView::And(a, b, _)) => {
            let first = passed(*a, type_env, scope, errors).1;
            lemma_pass_keeps_findings(*a, type_env, scope, errors);
            lemma_pass_keeps_findings(*b, type_env, scope, first);
            lemma_prefix_of_prefix(errors, first, after);
        },
        ExprView::LogicalOp(LogicalView::Or(a, b, _)) => {
            let first = passed(*a, type_env, scope, errors).1;
            lemma_pass_keeps_findings(*a, type_env, scope, errors);
            lemma_pass_keeps_findings(*b, type_env, scope, first);
            lemma_prefix_of_prefix(errors, first, after);
        },
        ExprView::RelationalOp(relation) => {
            let first = passed(*relation.left, type_env, scope, errors).1;
            lemma_pass_keeps_findings(*relation.left, type_env, scope, errors);
            lemma_pass_keeps_findings(*relation.right, type_env, scope, first);
            lemma_prefix_of_prefix(errors, first, after);
        },
        _ => {
            assert(after.take(errors.len() as int) =~= errors);
        },
    }
}

/// What begins what begins a list begins the list.
proof fn lemma_prefix_of_prefix<T>(first: Seq<T>, second: Seq<T>, third: Seq<T>)
    requires
        first.len() <= second.len() <= third.len(),
        second.take(first.len() as int) == first,
        third.take(second.len() as int) == second,
    ensures
        third.take(first.len() as int) == first,
{
    assert(third.take(first.len() as int) =~= first) by {
        assert forall|i: int| 0 <= i < first.len() implies third[i] == first[i] by {
            assert(third.take(second.len() as int)[i] == third[i]);
            assert(second.take(first.len() as int)[i] == second[i]);
        }
    }
}

/// An expression whose enum literals all have their types, and that holds no
/// field selection of the form of one, is left as it is by a pass.
pub open spec fn settled(e: ExprView) -> bool
    decreases e,
{
    match e {
        ExprView::FieldSelection(select) => literal_parts(select) is None,
        ExprView::LogicalOp(LogicalView::Not(inner, _)) => settled(*inner),
        ExprView::LogicalOp(LogicalView::And(a, b, _)) => settled(*a) && settled(*b),
        ExprView::LogicalOp(LogicalView::Or(a, b, _)) => settled(*a) && settled(*b),
        ExprView::RelationalOp(relation) => settled(*relation.left) && settled(*relation.right),
        ExprView::EnumLiteral(_, _, _, typ) => !(typ is Defer),
        _ => true,
    }
}

/// A pass over a settled expression changes nothing and finds nothing.
pub proof fn lemma_settled_is_fixed(
    e: ExprView,
    type_env: Seq<(Seq<char>, TypeView)>,
    scope: Seq<(Seq<char>, TypeView)>,
    errors: Seq<DiagnosticView>,
)
    requires
        settled(e),
    ensures
        passed(e, type_env, scope, errors) == (e, errors, false),
    decreases e,
{
    match e {
        ExprView::LogicalOp(LogicalView::Not(inner, _)) => {
            lemma_settled_is_fixed(*inner, type_env, scope, errors);
        },
        ExprView::LogicalOp(LogicalView::And(a, b, _)) => {
            lemma_settled_is_fixed(*a, type_env, scope, errors);
            lemma_settled_is_fixed(*b, type_env, scope, errors);
        },
        ExprView::LogicalOp(LogicalView::Or(a, b, _)) => {
            lemma_settled_is_fixed(*a, type_env, scope, errors);
            lemma_settled_is_fixed(*b, type_env, scope, errors);
        },
        ExprView::RelationalOp(relation) => {
            lemma_settled_is_fixed(*relation.left, type_env, scope, errors);
            lemma_settled_is_fixed(*relation.right, type_env, scope, errors);
        },
        _ => {},
    }
}

} // verus!
