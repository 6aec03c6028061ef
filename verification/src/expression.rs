//! Expressions over the fields of an event, and the negation among them.

use vstd::prelude::*;
use vstd::std_specs::convert::FromSpecImpl;
use vstd::string::StringExecFns;

verus! {

/// A value that an expression works on.
#[derive(Clone, Debug, PartialEq, Eq)]
pub enum Value {
    Bytes(String),
    Integer(i64),
    Boolean(bool),
    Null,
}

/// The kinds of values.
#[derive(Copy, Clone, Debug, PartialEq, Eq, Structural)]
pub enum ValueKind {
    Bytes,
    Integer,
    Boolean,
    Null,
}

/// A value of the wrong kind.
#[derive(Copy, Clone, Debug, PartialEq, Eq, Structural)]
pub enum ValueError {
    /// The first kind was expected, the second was found.
    Expected(ValueKind, ValueKind),
}

/// Why a negation failed.
#[derive(Copy, Clone, Debug, PartialEq, Eq, Structural)]
pub enum Error {
    /// The operand is no boolean.
    Value(ValueError),
}

/// Why a path could not be resolved.
#[derive(Clone, Debug, PartialEq, Eq)]
pub enum PathError {
    /// The object has no such field.
    Missing(String),
}

/// Why an expression failed.
#[derive(Clone, Debug, PartialEq, Eq)]
pub enum ExpressionError {
    Not(Error),
    Path(PathError),
}

/// What is known of the values of an expression.
#[derive(Copy, Clone, Debug, PartialEq, Eq, Structural)]
pub enum ValueConstraint {
    Any,
    Exact(ValueKind),
}

/// What is known of an expression before it is run.
#[derive(Copy, Clone, Debug, PartialEq, Eq, Structural)]
pub struct TypeDef {
    /// It may fail.
    pub fallible: bool,
    /// It may yield nothing.
    pub optional: bool,
    pub constraint: ValueConstraint,
}

/// What a program keeps between expressions.
#[derive(Debug, PartialEq, Eq)]
pub struct State {}

/// What the compiler keeps between expressions.
#[derive(Debug, PartialEq, Eq)]
pub struct CompilerState {}

impl Default for State {
    fn default() -> (state: Self) {
        State {  }
    }
}

impl Default for CompilerState {
    fn default() -> (state: Self) {
        CompilerState {  }
    }
}

/// The value that the last entry named `name` gives it; none where no entry
/// has that name.
pub open spec fn lookup(entries: Seq<(String, Value)>, name: Seq<char>) -> Option<Value>
    decreases entries.len(),
{
    if entries.len() == 0 {
        None
    } else if entries.last().0@ == name {
        Some(entries.last().1)
    } else {
        lookup(entries.drop_last(), name)
    }
}

/// The event that expressions are run against: named fields. A field that
/// is set again takes the new value.
#[derive(Debug)]
pub struct Object {
    entries: Vec<(String, Value)>,
}

impl Object {
    /// The value of the field `name`, if the object has it.
    pub closed spec fn field(&self, name: Seq<char>) -> Option<Value> {
        lookup(self.entries@, name)
    }

    /// An object without fields.
    pub fn new() -> (object: Self)
        ensures
            forall|name: Seq<char>| object.field(name) is None,
    {
        Object { entries: Vec::new() }
    }

    /// Sets the field `name` to `value`.
    pub fn insert(&mut self, name: String, value: Value)
        ensures
            final(self).field(name@) == Some(value),
            forall|other: Seq<char>| other != name@ ==> final(self).field(other) == old(self).field(other),
    {
        let ghost before = self.entries@;
        self.entries.push((name, value));
        assert(self.entries@.drop_last() =~= before);
    }

    /// The value of the field `name`, if the object has it.
    pub fn get(&self, name: &str) -> (value: Option<&Value>)
        ensures
            match value {
                Some(v) => self.field(name@) == Some(*v),
                None => self.field(name@) is None,
            },
    {
        let mut i: usize = self.entries.len();
        assert(self.entries@.take(i as int) =~= self.entries@);
        while i > 0
            invariant
                i <= self.entries@.len(),
                lookup(self.entries@, name@) == lookup(self.entries@.take(i as int), name@),
            decreases i,
        {
            proof {
                assert(self.entries@.take(i as int).drop_last() =~= self.entries@.take(i - 1));
            }
            i = i - 1;
            if crate::text::str_eq(self.entries[i].0.as_str(), name) {
                return Some(&self.entries[i].1);
            }
        }
        None
    }
}

impl Default for Object {
    fn default() -> (object: Self)
        ensures
            forall|name: Seq<char>| object.field(name) is None,
    {
        Object::new()
    }
}

/// A constant.
#[derive(Clone, Debug, PartialEq, Eq)]
pub struct Literal {
    pub value: Value,
}

/// The name of a field of the object.
#[derive(Clone, Debug, PartialEq, Eq)]
pub struct Path {
    pub name: String,
}

/// The negation of a boolean expression.
#[derive(Debug, PartialEq, Eq)]
pub struct Not {
    expression: Box<Expr>,
}

/// An expression.
#[derive(Debug, PartialEq, Eq)]
pub enum Expr {
    Literal(Literal),
    Path(Path),
    Not(Not),
    /// Does nothing and yields nothing.
    Noop,
}

impl Value {
    /// The kind of this value.
    pub open spec fn spec_kind(&self) -> ValueKind {
        match *self {
            Value::Bytes(_) => ValueKind::Bytes,
            Value::Integer(_) => ValueKind::Integer,
            Value::Boolean(_) => ValueKind::Boolean,
            Value::Null => ValueKind::Null,
        }
    }

    /// The kind of this value.
    #[verifier::when_used_as_spec(spec_kind)]
    pub fn kind(&self) -> (kind: ValueKind)
        ensures
            kind == self.spec_kind(),
    {
        match self {
            Value::Bytes(_) => ValueKind::Bytes,
            Value::Integer(_) => ValueKind::Integer,
            Value::Boolean(_) => ValueKind::Boolean,
            Value::Null => ValueKind::Null,
        }
    }

    /// A copy of this value.
    pub fn duplicate(&self) -> (copy: Value)
        ensures
            copy == *self,
    {
        match self {
            Value::Bytes(s) => Value::Bytes(s.clone()),
            Value::Integer(i) => Value::Integer(*i),
            Value::Boolean(b) => Value::Boolean(*b),
            Value::Null => Value::Null,
        }
    }
}

/// What negating the outcome of the operand gives: a boolean is turned
/// round, nothing stays nothing, a failure of the operand is passed on, and
/// any other value is an error that names the kind found.
pub open spec fn negated(operand: Result<Option<Value>, ExpressionError>) -> Result<
    Option<Value>,
    ExpressionError,
> {
    match operand {
        Err(e) => Err(e),
        Ok(None) => Ok(None),
        Ok(Some(Value::Boolean(b))) => Ok(Some(Value::Boolean(!b))),
        Ok(Some(v)) => Err(
            ExpressionError::Not(
                Error::Value(ValueError::Expected(ValueKind::Boolean, v.spec_kind())),
            ),
        ),
    }
}

/// What an expression yields when it is run against `object`.
pub open spec fn evaluated(expression: Expr, object: Object) -> Result<
    Option<Value>,
    ExpressionError,
>
    decreases expression,
{
    match expression {
        Expr::Literal(literal) => Ok(Some(literal.value)),
        Expr::Path(path) => match object.field(path.name@) {
            Some(value) => Ok(Some(value)),
            None => Err(ExpressionError::Path(PathError::Missing(path.name))),
        },
        Expr::Not(not) => negated(evaluated(not.operand(), object)),
        Expr::Noop => Ok(None),
    }
}

impl Literal {
    /// The constant `value`.
    pub fn new(value: Value) -> (literal: Self)
        ensures
            literal.value == value,
    {
        Literal { value }
    }

    /// A literal string.
    pub fn text(text: &str) -> (literal: Self)
        ensures
            literal.value matches Value::Bytes(s) && s@ == text@,
    {
        Literal { value: Value::Bytes(String::from_str(text)) }
    }
}

impl Path {
    /// The path to the field `name`.
    pub fn new(name: &str) -> (path: Self)
        ensures
            path.name@ == name@,
    {
        Path { name: String::from_str(name) }
    }
}

impl Not {
    /// The negation of `expression`.
    pub fn new(expression: Box<Expr>) -> (not: Self)
        ensures
            not.operand() == *expression,
    {
        Self { expression }
    }

    /// The expression that is negated.
    pub closed spec fn operand(&self) -> Expr {
        *self.expression
    }

    /// Runs the operand and negates what it yields.
    pub fn execute(&self, state: &mut State, object: &mut Object) -> (r: Result<
        Option<Value>,
        ExpressionError,
    >)
        ensures
            r == negated(evaluated(self.operand(), *old(object))),
            *final(object) == *old(object),
            *final(state) == *old(state),
        decreases self.operand(), 1nat,
    {
        match self.expression.execute(state, object) {
            Err(e) => Err(e),
            Ok(None) => Ok(None),
            Ok(Some(Value::Boolean(b))) => Ok(Some(Value::Boolean(!b))),
            Ok(Some(v)) => Err(
                ExpressionError::Not(
                    Error::Value(ValueError::Expected(ValueKind::Boolean, v.kind())),
                ),
            ),
        }
    }

    /// A negation may fail, may yield nothing, and yields a boolean if it
    /// yields anything.
    pub fn type_def(&self, _state: &CompilerState) -> (def: TypeDef)
        ensures
            def == (TypeDef {
                fallible: true,
                optional: true,
                constraint: ValueConstraint::Exact(ValueKind::Boolean),
            }),
    {
        TypeDef {
            fallible: true,
            optional: true,
            constraint: ValueConstraint::Exact(ValueKind::Boolean),
        }
    }
}

impl Expr {
    /// Runs the expression against `object`.
    pub fn execute(&self, state: &mut State, object: &mut Object) -> (r: Result<
        Option<Value>,
        ExpressionError,
    >)
        ensures
            r == evaluated(*self, *old(object)),
            *final(object) == *old(object),
            *final(state) == *old(state),
        decreases *self, 0nat,
    {
        match self {
            Expr::Literal(literal) => Ok(Some(literal.value.duplicate())),
            Expr::Path(path) => match object.get(path.name.as_str()) {
                Some(value) => Ok(Some(value.duplicate())),
                None => Err(ExpressionError::Path(PathError::Missing(path.name.clone()))),
            },
            Expr::Not(not) => not.execute(state, object),
            Expr::Noop => Ok(None),
        }
    }
}

impl ExpressionError {
    /// Which operation failed, in words.
    pub fn to_string(&self) -> (text: String)
        ensures
            text@ == match *self {
                ExpressionError::Not(_) => "not operation error"@,
                ExpressionError::Path(_) => "path error"@,
            },
    {
        match self {
            ExpressionError::Not(_) => String::from_str("not operation error"),
            ExpressionError::Path(_) => String::from_str("path error"),
        }
    }
}

impl Error {
    /// What is wrong, in words.
    pub fn to_string(&self) -> (text: String)
        ensures
            text@ == "invalid value kind"@,
    {
        String::from_str("invalid value kind")
    }
}

impl From<bool> for Value {
    fn from(b: bool) -> (value: Self) {
        Value::Boolean(b)
    }
}

impl FromSpecImpl<bool> for Value {
    open spec fn obeys_from_spec() -> bool {
        true
    }

    open spec fn from_spec(b: bool) -> Self {
        Value::Boolean(b)
    }
}

impl From<bool> for Literal {
    fn from(b: bool) -> (literal: Self) {
        Literal { value: Value::Boolean(b) }
    }
}

impl FromSpecImpl<bool> for Literal {
    open spec fn obeys_from_spec() -> bool {
        true
    }

    open spec fn from_spec(b: bool) -> Self {
        Literal { value: Value::Boolean(b) }
    }
}

impl From<Literal> for Expr {
    fn from(literal: Literal) -> (expression: Self) {
        Expr::Literal(literal)
    }
}

impl FromSpecImpl<Literal> for Expr {
    open spec fn obeys_from_spec() -> bool {
        true
    }

    open spec fn from_spec(literal: Literal) -> Self {
        Expr::Literal(literal)
    }
}

impl From<Path> for Expr {
    fn from(path: Path) -> (expression: Self) {
        Expr::Path(path)
    }
}

impl FromSpecImpl<Path> for Expr {
    open spec fn obeys_from_spec() -> bool {
        true
    }

    open spec fn from_spec(path: Path) -> Self {
        Expr::Path(path)
    }
}

impl From<Not> for Expr {
    fn from(not: Not) -> (expression: Self) {
        Expr::Not(not)
    }
}

impl FromSpecImpl<Not> for Expr {
    open spec fn obeys_from_spec() -> bool {
        true
    }

    open spec fn from_spec(not: Not) -> Self {
        Expr::Not(not)
    }
}

impl<'a> From<&'a str> for Path {
    /// The path to the field `name`, as `Path::new` gives it.
    fn from(name: &'a str) -> (path: Self) {
        Path::new(name)
    }
}

impl<'a> FromSpecImpl<&'a str> for Path {
    /// A path holds a string of its own, which no contract can name:
    /// what `from` returns is stated by `Path::new`.
    open spec fn obeys_from_spec() -> bool {
        false
    }

    open spec fn from_spec(name: &'a str) -> Self {
        choose|path: Path| path.name@ == name@
    }
}

impl<'a> From<&'a str> for Literal {
    /// The literal string `text`, as `Literal::text` gives it.
    fn from(text: &'a str) -> (literal: Self) {
        Literal::text(text)
    }
}

impl<'a> FromSpecImpl<&'a str> for Literal {
    /// A literal holds a string of its own, which no contract can
    /// name: what `from` returns is stated by `Literal::text`.
    open spec fn obeys_from_spec() -> bool {
        false
    }

    open spec fn from_spec(text: &'a str) -> Self {
        choose|literal: Literal| literal.value matches Value::Bytes(s) && s@ == text@
    }
}

} // verus!
