use vstd::prelude::*;

verus! {

/// The classification outcome: one of the three tabulated tags, or `E` for
/// a combination of inputs that no rule covers.
///
/// `E` is an ordinary result of classification, not a failure of the
/// evaluation: see [`EvaluationError`] for the latter.
#[derive(Clone, Copy, Debug, PartialEq, Eq, Structural)]
pub enum H {
    M,
    P,
    T,
    E,
}

/// The rule set in force: the base rules `B`, or one of the two custom
/// sets `C1` and `C2` that override or extend them.
#[derive(Clone, Copy, Debug, PartialEq, Eq, Structural)]
pub enum Case {
    B,
    C1,
    C2,
}

/// One of the three numeric inputs.
#[derive(Clone, Copy, Debug, PartialEq, Eq, Structural)]
pub enum Field {
    D,
    E,
    F,
}

/// Why an evaluation was abandoned.
#[derive(Clone, Copy, Debug, PartialEq, Eq, Structural)]
pub enum EvaluationError {
    /// A numeric input that the selected formula reads is absent.
    MissingField(Field),
}

/// The input record. Every field may be absent, and an absent field is
/// never read as `false` or zero; only an absent `case` has a meaning, the
/// base rules.
///
/// `d` is a double, carried as its IEEE-754 binary64 bit pattern: the
/// library never looks inside it, it only hands it on.
#[derive(Clone, Copy, Debug, PartialEq, Eq)]
pub struct Params {
    pub a: Option<bool>,
    pub b: Option<bool>,
    pub c: Option<bool>,
    pub d: Option<u64>,
    pub e: Option<i32>,
    pub f: Option<i32>,
    pub case: Option<Case>,
}

/// An arithmetic expression over doubles. Each inner node is one
/// operation of IEEE-754 binary64 arithmetic on the values of its two
/// operands, so the tree fixes not only the formula but also where its
/// intermediate results are rounded.
#[derive(Debug, PartialEq, Eq)]
pub enum Expr {
    /// A double, given by its IEEE-754 binary64 bit pattern.
    Bits(u64),
    /// An integer, converted to the double of the same value.
    Int(i32),
    /// The sum of the two operands.
    Add(Box<Expr>, Box<Expr>),
    /// The first operand less the second.
    Sub(Box<Expr>, Box<Expr>),
    /// The product of the two operands.
    Mul(Box<Expr>, Box<Expr>),
    /// The first operand divided by the second.
    Div(Box<Expr>, Box<Expr>),
}

/// The result of an evaluation: the outcome `h` and the value `k`, the
/// latter as the expression that yields it. For `H::E` the value is zero
/// and carries no meaning.
#[derive(Debug, PartialEq, Eq)]
pub struct Output {
    pub h: H,
    pub k: Expr,
}

/// A request that is turned away before any evaluation.
#[derive(Clone, Copy, Debug, PartialEq, Eq, Structural)]
pub enum Refusal {
    /// The body is no record: not JSON, of another content type, or too long.
    Malformed,
    /// The path is none of the service's.
    NotFound,
    /// The path is served, but not with this method.
    MethodNotAllowed,
}

/// The body of a rejection: a status code and a text for the caller.
#[derive(Debug, PartialEq, Eq)]
pub struct ErrorMessage {
    pub code: u16,
    pub message: String,
}

impl Default for H {
    /// The outcome `M`.
    fn default() -> (r: H)
        ensures
            r == H::M,
    {
        H::M
    }
}

impl Default for Params {
    /// The record with every field absent.
    fn default() -> (r: Params)
        ensures
            r == Params::absent(),
    {
        Params { a: None, b: None, c: None, d: None, e: None, f: None, case: None }
    }
}

impl Params {
    /// The record with every field absent.
    pub open spec fn absent() -> Params {
        Params { a: None, b: None, c: None, d: None, e: None, f: None, case: None }
    }

    /// The rule set that the record selects: the base rules where it names none.
    pub open spec fn spec_rule_set(&self) -> Case {
        match self.case {
            Some(case) => case,
            None => Case::B,
        }
    }

    /// The rule set that the record selects: the base rules where it names none.
    #[verifier::when_used_as_spec(spec_rule_set)]
    pub fn rule_set(&self) -> (r: Case)
        ensures
            r == self.spec_rule_set(),
    {
        match self.case {
            Some(case) => case,
            None => Case::B,
        }
    }
}

impl Field {
    /// The name of the input in the record.
    pub open spec fn spec_name(self) -> Seq<char> {
        match self {
            Field::D => "d"@,
            Field::E => "e"@,
            Field::F => "f"@,
        }
    }

    /// The name of the input in the record.
    pub fn name(&self) -> (r: &'static str)
        ensures
            r@ == self.spec_name(),
    {
        match self {
            Field::D => "d",
            Field::E => "e",
            Field::F => "f",
        }
    }
}

impl Expr {
    /// The sum `self + rhs`.
    pub open spec fn spec_plus(self, rhs: Expr) -> Expr {
        Expr::Add(Box::new(self), Box::new(rhs))
    }

    /// The sum `self + rhs`.
    #[verifier::when_used_as_spec(spec_plus)]
    pub fn plus(self, rhs: Expr) -> (r: Expr)
        ensures
            r == self.spec_plus(rhs),
    {
        Expr::Add(Box::new(self), Box::new(rhs))
    }

    /// The difference `self - rhs`.
    pub open spec fn spec_minus(self, rhs: Expr) -> Expr {
        Expr::Sub(Box::new(self), Box::new(rhs))
    }

    /// The difference `self - rhs`.
    #[verifier::when_used_as_spec(spec_minus)]
    pub fn minus(self, rhs: Expr) -> (r: Expr)
        ensures
            r == self.spec_minus(rhs),
    {
        Expr::Sub(Box::new(self), Box::new(rhs))
    }

    /// The product `self * rhs`.
    pub open spec fn spec_times(self, rhs: Expr) -> Expr {
        Expr::Mul(Box::new(self), Box::new(rhs))
    }

    /// The product `self * rhs`.
    #[verifier::when_used_as_spec(spec_times)]
    pub fn times(self, rhs: Expr) -> (r: Expr)
        ensures
            r == self.spec_times(rhs),
    {
        Expr::Mul(Box::new(self), Box::new(rhs))
    }

    /// The quotient `self / rhs`.
    pub open spec fn spec_over(self, rhs: Expr) -> Expr {
        Expr::Div(Box::new(self), Box::new(rhs))
    }

    /// The quotient `self / rhs`.
    #[verifier::when_used_as_spec(spec_over)]
    pub fn over(self, rhs: Expr) -> (r: Expr)
        ensures
            r == self.spec_over(rhs),
    {
        Expr::Div(Box::new(self), Box::new(rhs))
    }
}

} // verus!
