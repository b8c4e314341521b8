//! The operators of the language, each set listed once and in a fixed order.
//!
//! Whoever recognises operators in source text and whoever prints them go by
//! the same lists and the same spellings, so the two cannot drift apart.

use vstd::prelude::*;
use vstd::string::StringExecFns;

verus! {

/// Prefix and postfix operators.
#[derive(Copy, Clone, PartialEq, Eq, Debug, Structural)]
pub enum UnOp {
    Neg,
    Not,
    BitNot,
    Await,
    PreInc,
    PreDec,
    PostInc,
    PostDec,
}

/// Binary operators whose result is a truth value.
#[derive(Copy, Clone, PartialEq, Eq, Debug, Structural)]
pub enum BoolBinOp {
    Or,
    And,
    Eq,
    Ne,
    Ge,
    Gt,
    Le,
    Lt,
}

/// Binary operators that compute a value; each also has an assigning form.
#[derive(Copy, Clone, PartialEq, Eq, Debug, Structural)]
pub enum ValueBinOp {
    IfNull,
    Add,
    Sub,
    Mul,
    Div,
    Mod,
    TruncDiv,
    Lsh,
    Rsh,
    BitAnd,
    BitXor,
    BitOr,
}

/// Every binary operator: the two sets above, and assignment, plain or
/// combined with a value operator.
#[derive(Copy, Clone, PartialEq, Eq, Debug, Structural)]
pub enum BinOp {
    Bool(BoolBinOp),
    Value(ValueBinOp),
    Assign(Option<ValueBinOp>),
}

/// Operators that a class may define for its instances.
#[derive(Copy, Clone, PartialEq, Eq, Debug, Structural)]
pub enum OverloadedOp {
    BitNot,
    Index,
    IndexAssign,
    Bool(BoolBinOp),
    Value(ValueBinOp),
}

impl BoolBinOp {
    /// All the operators of the set, in declaration order.
    pub open spec fn all() -> Seq<BoolBinOp> {
        seq![
            BoolBinOp::Or,
            BoolBinOp::And,
            BoolBinOp::Eq,
            BoolBinOp::Ne,
            BoolBinOp::Ge,
            BoolBinOp::Gt,
            BoolBinOp::Le,
            BoolBinOp::Lt,
        ]
    }

    /// How the operator is written.
    pub open spec fn spelling(self) -> Seq<char> {
        match self {
            BoolBinOp::Or => "||"@,
            BoolBinOp::And => "&&"@,
            BoolBinOp::Eq => "=="@,
            BoolBinOp::Ne => "!="@,
            BoolBinOp::Ge => ">="@,
            BoolBinOp::Gt => ">"@,
            BoolBinOp::Le => "<="@,
            BoolBinOp::Lt => "<"@,
        }
    }

    /// Where the operator stands in `all`.
    pub open spec fn position(self) -> int {
        match self {
            BoolBinOp::Or => 0,
            BoolBinOp::And => 1,
            BoolBinOp::Eq => 2,
            BoolBinOp::Ne => 3,
            BoolBinOp::Ge => 4,
            BoolBinOp::Gt => 5,
            BoolBinOp::Le => 6,
            BoolBinOp::Lt => 7,
        }
    }

    /// Each operator stands in `all` exactly once, at `position`.
    pub proof fn lemma_all_complete(op: BoolBinOp)
        ensures
            0 <= op.position() < Self::all().len(),
            Self::all()[op.position()] == op,
            forall|i: int|
                0 <= i < Self::all().len() && Self::all()[i] == op ==> i == op.position(),
    {
    }

    /// The operator at position `n` of the set, if there is one.
    pub fn from_usize(n: usize) -> (op: Option<BoolBinOp>)
        ensures
            op == if n < Self::all().len() {
                Some(Self::all()[n as int])
            } else {
                None
            },
    {
        match n {
            0 => Some(BoolBinOp::Or),
            1 => Some(BoolBinOp::And),
            2 => Some(BoolBinOp::Eq),
            3 => Some(BoolBinOp::Ne),
            4 => Some(BoolBinOp::Ge),
            5 => Some(BoolBinOp::Gt),
            6 => Some(BoolBinOp::Le),
            7 => Some(BoolBinOp::Lt),
            _ => None,
        }
    }

    /// The whole set, in declaration order: the positions from 0 up, as far
    /// as they hold an operator.
    pub fn values() -> (ops: Vec<BoolBinOp>)
        ensures
            ops@ == Self::all(),
    {
        let mut ops: Vec<BoolBinOp> = Vec::new();
        let mut n: usize = 0;
        loop
            invariant
                n <= Self::all().len(),
                ops@ == Self::all().take(n as int),
            ensures
                n == Self::all().len(),
            decreases Self::all().len() - n,
        {
            match Self::from_usize(n) {
                Some(op) => {
                    ops.push(op);
                    n += 1;
                },
                None => {
                    break ;
                },
            }
        }
        ops
    }
}

impl ValueBinOp {
    /// All the operators of the set, in declaration order.
    pub open spec fn all() -> Seq<ValueBinOp> {
        seq![
            ValueBinOp::IfNull,
            ValueBinOp::Add,
            ValueBinOp::Sub,
            ValueBinOp::Mul,
            ValueBinOp::Div,
            ValueBinOp::Mod,
            ValueBinOp::TruncDiv,
            ValueBinOp::Lsh,
            ValueBinOp::Rsh,
            ValueBinOp::BitAnd,
            ValueBinOp::BitXor,
            ValueBinOp::BitOr,
        ]
    }

    /// How the operator is written.
    pub open spec fn spelling(self) -> Seq<char> {
        match self {
            ValueBinOp::IfNull => "??"@,
            ValueBinOp::Add => "+"@,
            ValueBinOp::Sub => "-"@,
            ValueBinOp::Mul => "*"@,
            ValueBinOp::Div => "/"@,
            ValueBinOp::Mod => "%"@,
            ValueBinOp::TruncDiv => "~/"@,
            ValueBinOp::Lsh => "<<"@,
            ValueBinOp::Rsh => ">>"@,
            ValueBinOp::BitAnd => "&"@,
            ValueBinOp::BitXor => "^"@,
            ValueBinOp::BitOr => "|"@,
        }
    }

    /// Where the operator stands in `all`.
    pub open spec fn position(self) -> int {
        match self {
            ValueBinOp::IfNull => 0,
            ValueBinOp::Add => 1,
            ValueBinOp::Sub => 2,
            ValueBinOp::Mul => 3,
            ValueBinOp::Div => 4,
            ValueBinOp::Mod => 5,
            ValueBinOp::TruncDiv => 6,
            ValueBinOp::Lsh => 7,
            ValueBinOp::Rsh => 8,
            ValueBinOp::BitAnd => 9,
            ValueBinOp::BitXor => 10,
            ValueBinOp::BitOr => 11,
        }
    }

    /// Each operator stands in `all` exactly once, at `position`.
    pub proof fn lemma_all_complete(op: ValueBinOp)
        ensures
            0 <= op.position() < Self::all().len(),
            Self::all()[op.position()] == op,
            forall|i: int|
                0 <= i < Self::all().len() && Self::all()[i] == op ==> i == op.position(),
    {
    }

    /// The spelling of the operator by itself.
    fn as_str(self) -> (text: &'static str)
        ensures
            text@ == self.spelling(),
    {
        match self {
            ValueBinOp::IfNull => "??",
            ValueBinOp::Add => "+",
            ValueBinOp::Sub => "-",
            ValueBinOp::Mul => "*",
            ValueBinOp::Div => "/",
            ValueBinOp::Mod => "%",
            ValueBinOp::TruncDiv => "~/",
            ValueBinOp::Lsh => "<<",
            ValueBinOp::Rsh => ">>",
            ValueBinOp::BitAnd => "&",
            ValueBinOp::BitXor => "^",
            ValueBinOp::BitOr => "|",
        }
    }

    /// The spelling of the operator's assigning form.
    fn as_assign_str(self) -> (text: &'static str)
        ensures
            text@ == self.spelling() + "="@,
    {
        proof {
            reveal_strlit("=");
            reveal_strlit("??");
            reveal_strlit("+");
            reveal_strlit("-");
            reveal_strlit("*");
            reveal_strlit("/");
            reveal_strlit("%");
            reveal_strlit("~/");
            reveal_strlit("<<");
            reveal_strlit(">>");
            reveal_strlit("&");
            reveal_strlit("^");
            reveal_strlit("|");
            reveal_strlit("??=");
            reveal_strlit("+=");
            reveal_strlit("-=");
            reveal_strlit("*=");
            reveal_strlit("/=");
            reveal_strlit("%=");
            reveal_strlit("~/=");
            reveal_strlit("<<=");
            reveal_strlit(">>=");
            reveal_strlit("&=");
            reveal_strlit("^=");
            reveal_strlit("|=");
        }
        match self {
            ValueBinOp::IfNull => "??=",
            ValueBinOp::Add => "+=",
            ValueBinOp::Sub => "-=",
            ValueBinOp::Mul => "*=",
            ValueBinOp::Div => "/=",
            ValueBinOp::Mod => "%=",
            ValueBinOp::TruncDiv => "~/=",
            ValueBinOp::Lsh => "<<=",
            ValueBinOp::Rsh => ">>=",
            ValueBinOp::BitAnd => "&=",
            ValueBinOp::BitXor => "^=",
            ValueBinOp::BitOr => "|=",
        }
    }

    /// The operator at position `n` of the set, if there is one.
    pub fn from_usize(n: usize) -> (op: Option<ValueBinOp>)
        ensures
            op == if n < Self::all().len() {
                Some(Self::all()[n as int])
            } else {
                None
            },
    {
        match n {
            0 => Some(ValueBinOp::IfNull),
            1 => Some(ValueBinOp::Add),
            2 => Some(ValueBinOp::Sub),
            3 => Some(ValueBinOp::Mul),
            4 => Some(ValueBinOp::Div),
            5 => Some(ValueBinOp::Mod),
            6 => Some(ValueBinOp::TruncDiv),
            7 => Some(ValueBinOp::Lsh),
            8 => Some(ValueBinOp::Rsh),
            9 => Some(ValueBinOp::BitAnd),
            10 => Some(ValueBinOp::BitXor),
            11 => Some(ValueBinOp::BitOr),
            _ => None,
        }
    }

    /// The whole set, in declaration order: the positions from 0 up, as far
    /// as they hold an operator.
    pub fn values() -> (ops: Vec<ValueBinOp>)
        ensures
            ops@ == Self::all(),
    {
        let mut ops: Vec<ValueBinOp> = Vec::new();
        let mut n: usize = 0;
        loop
            invariant
                n <= Self::all().len(),
                ops@ == Self::all().take(n as int),
            ensures
                n == Self::all().len(),
            decreases Self::all().len() - n,
        {
            match Self::from_usize(n) {
                Some(op) => {
                    ops.push(op);
                    n += 1;
                },
                None => {
                    break ;
                },
            }
        }
        ops
    }
}

/// The first three characters of a text and its length: enough to tell any two
/// operator spellings apart.
spec fn digest(text: Seq<char>) -> (nat, char, char, char) {
    (
        text.len(),
        if text.len() > 0 {
            text[0]
        } else {
            ' '
        },
        if text.len() > 1 {
            text[1]
        } else {
            ' '
        },
        if text.len() > 2 {
            text[2]
        } else {
            ' '
        },
    )
}

/// What `digest` gives for the spelling of each value operator.
spec fn value_digest(op: ValueBinOp) -> (nat, char, char, char) {
    match op {
        ValueBinOp::IfNull => (2, '?', '?', ' '),
        ValueBinOp::Add => (1, '+', ' ', ' '),
        ValueBinOp::Sub => (1, '-', ' ', ' '),
        ValueBinOp::Mul => (1, '*', ' ', ' '),
        ValueBinOp::Div => (1, '/', ' ', ' '),
        ValueBinOp::Mod => (1, '%', ' ', ' '),
        ValueBinOp::TruncDiv => (2, '~', '/', ' '),
        ValueBinOp::Lsh => (2, '<', '<', ' '),
        ValueBinOp::Rsh => (2, '>', '>', ' '),
        ValueBinOp::BitAnd => (1, '&', ' ', ' '),
        ValueBinOp::BitXor => (1, '^', ' ', ' '),
        ValueBinOp::BitOr => (1, '|', ' ', ' '),
    }
}

/// What `digest` gives for the spelling of each truth-valued operator.
spec fn bool_digest(op: BoolBinOp) -> (nat, char, char, char) {
    match op {
        BoolBinOp::Or => (2, '|', '|', ' '),
        BoolBinOp::And => (2, '&', '&', ' '),
        BoolBinOp::Eq => (2, '=', '=', ' '),
        BoolBinOp::Ne => (2, '!', '=', ' '),
        BoolBinOp::Ge => (2, '>', '=', ' '),
        BoolBinOp::Gt => (1, '>', ' ', ' '),
        BoolBinOp::Le => (2, '<', '=', ' '),
        BoolBinOp::Lt => (1, '<', ' ', ' '),
    }
}

/// What `digest` gives for the spelling of each binary operator.
spec fn op_digest(op: BinOp) -> (nat, char, char, char) {
    match op {
        BinOp::Bool(op) => bool_digest(op),
        BinOp::Value(op) => value_digest(op),
        BinOp::Assign(Some(op)) => {
            let (len, a, b, _) = value_digest(op);
            if len == 1 {
                (2, a, '=', ' ')
            } else {
                (3, a, b, '=')
            }
        },
        BinOp::Assign(None) => (1, '=', ' ', ' '),
    }
}

proof fn lemma_value_digest(op: ValueBinOp)
    ensures
        digest(op.spelling()) == value_digest(op),
{
    reveal_strlit("??");
    reveal_strlit("+");
    reveal_strlit("-");
    reveal_strlit("*");
    reveal_strlit("/");
    reveal_strlit("%");
    reveal_strlit("~/");
    reveal_strlit("<<");
    reveal_strlit(">>");
    reveal_strlit("&");
    reveal_strlit("^");
    reveal_strlit("|");
}

proof fn lemma_bool_digest(op: BoolBinOp)
    ensures
        digest(op.spelling()) == bool_digest(op),
{
    reveal_strlit("||");
    reveal_strlit("&&");
    reveal_strlit("==");
    reveal_strlit("!=");
    reveal_strlit(">=");
    reveal_strlit(">");
    reveal_strlit("<=");
    reveal_strlit("<");
}

proof fn lemma_op_digest(op: BinOp)
    ensures
        digest(op.spelling()) == op_digest(op),
{
    reveal_strlit("=");
    match op {
        BinOp::Bool(op) => lemma_bool_digest(op),
        BinOp::Value(op) => lemma_value_digest(op),
        BinOp::Assign(Some(op)) => lemma_value_digest(op),
        BinOp::Assign(None) => {},
    }
}

impl BinOp {
    /// All the binary operators: the truth-valued ones, the value operators,
    /// the assigning form of each value operator, and plain assignment last.
    pub open spec fn all() -> Seq<BinOp> {
        BoolBinOp::all().map_values(|op: BoolBinOp| BinOp::Bool(op))
            + ValueBinOp::all().map_values(|op: ValueBinOp| BinOp::Value(op))
            + ValueBinOp::all().map_values(|op: ValueBinOp| BinOp::Assign(Some(op)))
            + seq![BinOp::Assign(None)]
    }

    /// Where the operator stands in `all`.
    pub open spec fn position(self) -> int {
        match self {
            BinOp::Bool(op) => op.position(),
            BinOp::Value(op) => BoolBinOp::all().len() + op.position(),
            BinOp::Assign(Some(op)) => {
                BoolBinOp::all().len() + ValueBinOp::all().len() + op.position()
            },
            BinOp::Assign(None) => Self::all().len() - 1,
        }
    }

    /// How the operator is written. An assigning form is the value operator
    /// followed by `=`.
    pub open spec fn spelling(self) -> Seq<char> {
        match self {
            BinOp::Bool(op) => op.spelling(),
            BinOp::Value(op) => op.spelling(),
            BinOp::Assign(Some(op)) => op.spelling() + "="@,
            BinOp::Assign(None) => "="@,
        }
    }

    /// The operator that is written `text`, if any is.
    pub open spec fn spelled(text: Seq<char>) -> Option<BinOp> {
        if exists|op: BinOp| op.spelling() == text {
            Some(choose|op: BinOp| op.spelling() == text)
        } else {
            None
        }
    }

    /// No two operators are written alike.
    pub proof fn lemma_spelling_injective(a: BinOp, b: BinOp)
        requires
            a.spelling() == b.spelling(),
        ensures
            a == b,
    {
        lemma_op_digest(a);
        lemma_op_digest(b);
    }

    /// Reading back what was printed gives the operator that was printed.
    pub proof fn lemma_round_trip(op: BinOp)
        ensures
            Self::spelled(op.spelling()) == Some(op),
    {
        let found = choose|other: BinOp| other.spelling() == op.spelling();
        Self::lemma_spelling_injective(found, op);
    }

    /// Each operator stands in `all` exactly once, at `position`.
    pub proof fn lemma_all_complete(op: BinOp)
        ensures
            0 <= op.position() < Self::all().len(),
            Self::all()[op.position()] == op,
            forall|i: int|
                0 <= i < Self::all().len() && Self::all()[i] == op ==> i == op.position(),
    {
    }

    /// Every binary operator, in the order of `all`.
    pub fn values() -> (ops: Vec<BinOp>)
        ensures
            ops@ == Self::all(),
    {
        let bools = BoolBinOp::values();
        let values = ValueBinOp::values();
        let mut ops: Vec<BinOp> = Vec::new();
        let mut i: usize = 0;
        while i < bools.len()
            invariant
                i <= bools.len(),
                ops@ == bools@.take(i as int).map_values(|op: BoolBinOp| BinOp::Bool(op)),
            decreases bools.len() - i,
        {
            ops.push(BinOp::Bool(bools[i]));
            i += 1;
        }
        let ghost first = ops@;
        i = 0;
        while i < values.len()
            invariant
                i <= values.len(),
                ops@ == first + values@.take(i as int).map_values(
                    |op: ValueBinOp| BinOp::Value(op),
                ),
            decreases values.len() - i,
        {
            ops.push(BinOp::Value(values[i]));
            i += 1;
        }
        let ghost second = ops@;
        i = 0;
        while i < values.len()
            invariant
                i <= values.len(),
                ops@ == second + values@.take(i as int).map_values(
                    |op: ValueBinOp| BinOp::Assign(Some(op)),
                ),
            decreases values.len() - i,
        {
            ops.push(BinOp::Assign(Some(values[i])));
            i += 1;
        }
        ops.push(BinOp::Assign(None));
        ops
    }

    /// The operator whose canonical spelling is `text`: what recognising an
    /// operator in source text comes to. The spellings tried are those of
    /// `values`, so an operator added to a set is recognised from then on.
    pub fn from_str(text: &str) -> (found: Option<BinOp>)
        ensures
            found == Self::spelled(text@),
    {
        let ops = Self::values();
        let wanted = String::from_str(text);
        let mut i: usize = 0;
        while i < ops.len()
            invariant
                i <= ops.len(),
                ops@ == Self::all(),
                wanted@ == text@,
                forall|j: int| 0 <= j < i ==> (#[trigger] ops@[j]).spelling() != text@,
            decreases ops.len() - i,
        {
            let op = ops[i];
            if String::from_str(op.as_str()) == wanted {
                proof {
                    Self::lemma_spelling_injective(
                        choose|other: BinOp| other.spelling() == text@,
                        op,
                    );
                }
                return Some(op);
            }
            i += 1;
        }
        proof {
            assert forall|op: BinOp| op.spelling() != text@ by {
                Self::lemma_all_complete(op);
            }
        }
        None
    }

    /// The canonical spelling of the operator.
    pub fn as_str(self) -> (text: &'static str)
        ensures
            text@ == self.spelling(),
    {
        match self {
            BinOp::Bool(BoolBinOp::Or) => "||",
            BinOp::Bool(BoolBinOp::And) => "&&",
            BinOp::Bool(BoolBinOp::Eq) => "==",
            BinOp::Bool(BoolBinOp::Ne) => "!=",
            BinOp::Bool(BoolBinOp::Ge) => ">=",
            BinOp::Bool(BoolBinOp::Gt) => ">",
            BinOp::Bool(BoolBinOp::Le) => "<=",
            BinOp::Bool(BoolBinOp::Lt) => "<",
            BinOp::Value(op) => op.as_str(),
            BinOp::Assign(Some(op)) => op.as_assign_str(),
            BinOp::Assign(None) => "=",
        }
    }
}

} // verus!
