//! Binary operators between expressions, with vector-matching modifiers.
//!
//! Two expressions of compatible phases are combined into a new expression:
//! the output phase is an instant vector unless both operands are scalars.
//! The emitted text follows the grammar's fixed token order:
//! `<left> <op> [bool] [on|ignoring (<labels>)]
//! [group_left|group_right [(<labels>)]] <right>`.

use vstd::prelude::*;

verus! {

use vstd::string::StringExecFns;
use crate::error::Error;
use crate::text::append_join;
use crate::text::joined;
use crate::text::push_char;
use crate::vector::InstantVector;
use crate::vector::Scalar;

/// An arithmetic, comparison or set operator between two expressions.
#[derive(Clone, Copy, PartialEq, Eq, Structural, Debug)]
pub enum BinaryOperator {
    /// `+`
    Plus,
    /// `-`
    Minus,
    /// `*`
    Times,
    /// `/`
    Divide,
    /// `%`
    Modulo,
    /// `^`
    Power,
    /// `==`
    Equal,
    /// `!=`
    NotEqual,
    /// `>`
    GreaterThan,
    /// `<`
    LessThan,
    /// `>=`
    GreaterOrEqual,
    /// `<=`
    LessOrEqual,
    /// `and`
    Intersect,
    /// `or`
    Union,
    /// `unless`
    Complement,
}

impl BinaryOperator {
    /// The operator's token in the query grammar.
    pub open spec fn token(self) -> Seq<char> {
        match self {
            BinaryOperator::Plus => "+"@,
            BinaryOperator::Minus => "-"@,
            BinaryOperator::Times => "*"@,
            BinaryOperator::Divide => "/"@,
            BinaryOperator::Modulo => "%"@,
            BinaryOperator::Power => "^"@,
            BinaryOperator::Equal => "=="@,
            BinaryOperator::NotEqual => "!="@,
            BinaryOperator::GreaterThan => ">"@,
            BinaryOperator::LessThan => "<"@,
            BinaryOperator::GreaterOrEqual => ">="@,
            BinaryOperator::LessOrEqual => "<="@,
            BinaryOperator::Intersect => "and"@,
            BinaryOperator::Union => "or"@,
            BinaryOperator::Complement => "unless"@,
        }
    }

    /// The operator compares its operands, so it may take a `bool`
    /// modifier.
    pub open spec fn is_comparison(self) -> bool {
        match self {
            BinaryOperator::Equal => true,
            BinaryOperator::NotEqual => true,
            BinaryOperator::GreaterThan => true,
            BinaryOperator::LessThan => true,
            BinaryOperator::GreaterOrEqual => true,
            BinaryOperator::LessOrEqual => true,
            _ => false,
        }
    }

    /// The operator is a set operator, legal only between two vectors.
    pub open spec fn is_set_operator(self) -> bool {
        match self {
            BinaryOperator::Intersect => true,
            BinaryOperator::Union => true,
            BinaryOperator::Complement => true,
            _ => false,
        }
    }

    /// The operator's token as text.
    pub fn token_str(self) -> (r: &'static str)
        ensures
            r@ == self.token(),
    {
        match self {
            BinaryOperator::Plus => "+",
            BinaryOperator::Minus => "-",
            BinaryOperator::Times => "*",
            BinaryOperator::Divide => "/",
            BinaryOperator::Modulo => "%",
            BinaryOperator::Power => "^",
            BinaryOperator::Equal => "==",
            BinaryOperator::NotEqual => "!=",
            BinaryOperator::GreaterThan => ">",
            BinaryOperator::LessThan => "<",
            BinaryOperator::GreaterOrEqual => ">=",
            BinaryOperator::LessOrEqual => "<=",
            BinaryOperator::Intersect => "and",
            BinaryOperator::Union => "or",
            BinaryOperator::Complement => "unless",
        }
    }

    /// True exactly for the comparison operators.
    pub fn comparison(self) -> (r: bool)
        ensures
            r == self.is_comparison(),
    {
        match self {
            BinaryOperator::Equal => true,
            BinaryOperator::NotEqual => true,
            BinaryOperator::GreaterThan => true,
            BinaryOperator::LessThan => true,
            BinaryOperator::GreaterOrEqual => true,
            BinaryOperator::LessOrEqual => true,
            _ => false,
        }
    }

    /// True exactly for the set operators.
    pub fn set_operator(self) -> (r: bool)
        ensures
            r == self.is_set_operator(),
    {
        match self {
            BinaryOperator::Intersect => true,
            BinaryOperator::Union => true,
            BinaryOperator::Complement => true,
            _ => false,
        }
    }
}

/// Whether the listed labels select (`on`) or exclude (`ignoring`) the
/// labels used to match series on both sides.
#[derive(Clone, Copy, PartialEq, Eq, Structural, Debug)]
pub enum MatchKind {
    /// Match on the listed labels only.
    On,
    /// Match on all labels but the listed ones.
    Ignoring,
}

impl MatchKind {
    /// The modifier's keyword.
    pub open spec fn token(self) -> Seq<char> {
        match self {
            MatchKind::On => "on"@,
            MatchKind::Ignoring => "ignoring"@,
        }
    }

    /// The modifier's keyword as text.
    pub fn token_str(self) -> (r: &'static str)
        ensures
            r@ == self.token(),
    {
        match self {
            MatchKind::On => "on",
            MatchKind::Ignoring => "ignoring",
        }
    }
}

/// Many-to-one or one-to-many matching, with the labels to copy from the
/// "one" side; no list at all emits the bare keyword.
#[derive(Debug)]
pub enum Grouping {
    /// One-to-one matching; no keyword is emitted.
    NoGrouping,
    /// `group_left`, with optionally the labels to include.
    GroupLeft(Option<Vec<String>>),
    /// `group_right`, with optionally the labels to include.
    GroupRight(Option<Vec<String>>),
}

/// The grouping part of the modifier text, preceded by a space when
/// present.
pub open spec fn grouping_text(g: Grouping) -> Seq<char> {
    match g {
        Grouping::NoGrouping => Seq::empty(),
        Grouping::GroupLeft(ls) => match ls {
            Some(v) => seq![' '] + "group_left"@ + seq!['('] + joined(v.deep_view(), ", "@)
                + seq![')'],
            None => seq![' '] + "group_left"@,
        },
        Grouping::GroupRight(ls) => match ls {
            Some(v) => seq![' '] + "group_right"@ + seq!['('] + joined(v.deep_view(), ", "@)
                + seq![')'],
            None => seq![' '] + "group_right"@,
        },
    }
}

/// A vector-matching modifier: `on`/`ignoring` with its label list, and an
/// optional grouping.
#[derive(Debug)]
pub struct VectorMatching {
    /// Whether the labels select or exclude.
    pub kind: MatchKind,
    /// The labels to match on (or to ignore); must be nonempty.
    pub labels: Vec<String>,
    /// The grouping modifier, if any.
    pub grouping: Grouping,
}

impl VectorMatching {
    /// The label list after `on`/`ignoring` is nonempty, as the parentheses
    /// are syntactically required.
    pub open spec fn labels_ok(self) -> bool {
        self.labels@.len() > 0
    }

    /// A grouping label list, when one is given, is nonempty; omitting the
    /// list entirely is legal and emits the bare keyword.
    pub open spec fn grouping_ok(self) -> bool {
        match self.grouping {
            Grouping::NoGrouping => true,
            Grouping::GroupLeft(ls) => match ls {
                Some(v) => v@.len() > 0,
                None => true,
            },
            Grouping::GroupRight(ls) => match ls {
                Some(v) => v@.len() > 0,
                None => true,
            },
        }
    }

    /// A configuration that serializes to legal modifier text.
    pub open spec fn wf(self) -> bool {
        self.labels_ok() && self.grouping_ok()
    }

    /// The modifier text:
    /// `on|ignoring (<labels>) [group_left|group_right [(<labels>)]]`.
    pub open spec fn text(self) -> Seq<char> {
        self.kind.token() + seq!['('] + joined(self.labels.deep_view(), ", "@) + seq![')']
            + grouping_text(self.grouping)
    }

    /// Appends the modifier text.
    fn append_text(&self, out: &mut String)
        ensures
            final(out)@ == old(out)@ + self.text(),
    {
        out.append(self.kind.token_str());
        push_char(out, '(');
        append_join(out, &self.labels);
        push_char(out, ')');
        match &self.grouping {
            Grouping::NoGrouping => (),
            Grouping::GroupLeft(ls) => {
                push_char(out, ' ');
                out.append("group_left");
                match ls {
                    Some(v) => {
                        push_char(out, '(');
                        append_join(out, v);
                        push_char(out, ')');
                    },
                    None => (),
                }
            },
            Grouping::GroupRight(ls) => {
                push_char(out, ' ');
                out.append("group_right");
                match ls {
                    Some(v) => {
                        push_char(out, '(');
                        append_join(out, v);
                        push_char(out, ')');
                    },
                    None => (),
                }
            },
        }
        proof {
            assert(out@ =~= old(out)@ + self.text());
        }
    }

    /// True exactly when the configuration is legal.
    fn valid(&self) -> (r: bool)
        ensures
            r == self.wf(),
    {
        if self.labels.len() == 0 {
            return false;
        }
        match &self.grouping {
            Grouping::NoGrouping => true,
            Grouping::GroupLeft(ls) => match ls {
                Some(v) => v.len() > 0,
                None => true,
            },
            Grouping::GroupRight(ls) => match ls {
                Some(v) => v.len() > 0,
                None => true,
            },
        }
    }
}

/// The full text of a binary combination: both operands with the operator
/// token, the optional `bool` modifier and the optional vector-matching
/// modifier between them, separated by single spaces.
pub open spec fn combined_text(
    left: Seq<char>,
    operator: BinaryOperator,
    bool_modifier: bool,
    matching: Option<VectorMatching>,
    right: Seq<char>,
) -> Seq<char> {
    left + seq![' '] + operator.token() + (if bool_modifier {
        seq![' '] + "bool"@
    } else {
        Seq::empty()
    }) + (match matching {
        Some(m) => seq![' '] + m.text(),
        None => Seq::empty(),
    }) + seq![' '] + right
}

/// Builds the combined text of a binary expression.
fn build_combined(
    left_text: &String,
    operator: BinaryOperator,
    bool_modifier: bool,
    matching: &Option<VectorMatching>,
    right_text: &String,
) -> (r: String)
    ensures
        r@ == combined_text(left_text@, operator, bool_modifier, *matching, right_text@),
{
    let mut out = left_text.clone();
    push_char(&mut out, ' ');
    out.append(operator.token_str());
    if bool_modifier {
        push_char(&mut out, ' ');
        out.append("bool");
    }
    match matching {
        Some(m) => {
            push_char(&mut out, ' ');
            m.append_text(&mut out);
        },
        None => (),
    }
    push_char(&mut out, ' ');
    out.append(right_text.as_str());
    proof {
        assert(out@ =~= combined_text(left_text@, operator, bool_modifier, *matching, right_text@));
    }
    out
}

/// Combines two instant vectors with a binary operator and an optional
/// vector-matching modifier; the output phase is an instant vector. Fails
/// with `InvalidFunctionArgument` when a `bool` modifier accompanies an
/// operator that is not a comparison, or when the modifier's label lists
/// are configured illegally.
pub fn vector_vector(
    operator: BinaryOperator,
    bool_modifier: bool,
    matching: Option<VectorMatching>,
    left: InstantVector,
    right: InstantVector,
) -> (r: Result<InstantVector, Error>)
    ensures
        r is Ok <==> ((bool_modifier ==> operator.is_comparison()) && (matching matches Some(m)
            ==> m.wf())),
        r matches Ok(v) ==> v@ == combined_text(left@, operator, bool_modifier, matching, right@),
        bool_modifier && !operator.is_comparison() ==> (r matches Err(
            Error::InvalidFunctionArgument(m),
        ) && m@ == "the bool modifier requires a comparison operator"@),
        (bool_modifier ==> operator.is_comparison()) && (matching matches Some(vm)
            && !vm.labels_ok()) ==> (r matches Err(Error::InvalidFunctionArgument(m)) && m@
            == "label list in on() or ignoring() cannot be empty"@),
        (bool_modifier ==> operator.is_comparison()) && (matching matches Some(vm)
            && vm.labels_ok() && !vm.grouping_ok()) ==> (r matches Err(
            Error::InvalidFunctionArgument(m),
        ) && m@ == "label list in group_left() or group_right() cannot be empty"@),
{
    if bool_modifier && !operator.comparison() {
        return Err(
            Error::InvalidFunctionArgument(
                "the bool modifier requires a comparison operator".to_owned(),
            ),
        );
    }
    match &matching {
        Some(m) => {
            if m.labels.len() == 0 {
                return Err(
                    Error::InvalidFunctionArgument(
                        "label list in on() or ignoring() cannot be empty".to_owned(),
                    ),
                );
            }
            if !m.valid() {
                return Err(
                    Error::InvalidFunctionArgument(
                        "label list in group_left() or group_right() cannot be empty".to_owned(),
                    ),
                );
            }
        },
        None => (),
    }
    let left_text = left.serialize();
    let right_text = right.serialize();
    let out = build_combined(&left_text, operator, bool_modifier, &matching, &right_text);
    Ok(InstantVector::from_text(out))
}

/// Combines an instant vector with a scalar; the output phase is an
/// instant vector. Set operators require two vector operands, and a `bool`
/// modifier requires a comparison operator; a violation fails with
/// `InvalidFunctionArgument`.
pub fn vector_scalar(
    operator: BinaryOperator,
    bool_modifier: bool,
    left: InstantVector,
    right: Scalar,
) -> (r: Result<InstantVector, Error>)
    ensures
        r is Ok <==> (!operator.is_set_operator() && (bool_modifier
            ==> operator.is_comparison())),
        r matches Ok(v) ==> v@ == combined_text(left@, operator, bool_modifier, None, right@),
        operator.is_set_operator() ==> (r matches Err(Error::InvalidFunctionArgument(m)) && m@
            == "set operators require two vector operands"@),
        !operator.is_set_operator() && bool_modifier && !operator.is_comparison() ==> (r matches Err(
            Error::InvalidFunctionArgument(m),
        ) && m@ == "the bool modifier requires a comparison operator"@),
{
    if operator.set_operator() {
        return Err(
            Error::InvalidFunctionArgument("set operators require two vector operands".to_owned()),
        );
    }
    if bool_modifier && !operator.comparison() {
        return Err(
            Error::InvalidFunctionArgument(
                "the bool modifier requires a comparison operator".to_owned(),
            ),
        );
    }
    let left_text = left.serialize();
    let right_text = right.serialize();
    let out = build_combined(&left_text, operator, bool_modifier, &None, &right_text);
    Ok(InstantVector::from_text(out))
}

/// Combines a scalar with an instant vector; the output phase is an
/// instant vector. The same operator rules apply as for
/// [`vector_scalar`].
pub fn scalar_vector(
    operator: BinaryOperator,
    bool_modifier: bool,
    left: Scalar,
    right: InstantVector,
) -> (r: Result<InstantVector, Error>)
    ensures
        r is Ok <==> (!operator.is_set_operator() && (bool_modifier
            ==> operator.is_comparison())),
        r matches Ok(v) ==> v@ == combined_text(left@, operator, bool_modifier, None, right@),
        operator.is_set_operator() ==> (r matches Err(Error::InvalidFunctionArgument(m)) && m@
            == "set operators require two vector operands"@),
        !operator.is_set_operator() && bool_modifier && !operator.is_comparison() ==> (r matches Err(
            Error::InvalidFunctionArgument(m),
        ) && m@ == "the bool modifier requires a comparison operator"@),
{
    if operator.set_operator() {
        return Err(
            Error::InvalidFunctionArgument("set operators require two vector operands".to_owned()),
        );
    }
    if bool_modifier && !operator.comparison() {
        return Err(
            Error::InvalidFunctionArgument(
                "the bool modifier requires a comparison operator".to_owned(),
            ),
        );
    }
    let left_text = left.serialize();
    let right_text = right.serialize();
    let out = build_combined(&left_text, operator, bool_modifier, &None, &right_text);
    Ok(InstantVector::from_text(out))
}

/// Combines two scalars; only when both operands are scalars is the output
/// phase a scalar. The same operator rules apply as for [`vector_scalar`].
pub fn scalar_scalar(
    operator: BinaryOperator,
    bool_modifier: bool,
    left: Scalar,
    right: Scalar,
) -> (r: Result<Scalar, Error>)
    ensures
        r is Ok <==> (!operator.is_set_operator() && (bool_modifier
            ==> operator.is_comparison())),
        r matches Ok(v) ==> v@ == combined_text(left@, operator, bool_modifier, None, right@),
        operator.is_set_operator() ==> (r matches Err(Error::InvalidFunctionArgument(m)) && m@
            == "set operators require two vector operands"@),
        !operator.is_set_operator() && bool_modifier && !operator.is_comparison() ==> (r matches Err(
            Error::InvalidFunctionArgument(m),
        ) && m@ == "the bool modifier requires a comparison operator"@),
{
    if operator.set_operator() {
        return Err(
            Error::InvalidFunctionArgument("set operators require two vector operands".to_owned()),
        );
    }
    if bool_modifier && !operator.comparison() {
        return Err(
            Error::InvalidFunctionArgument(
                "the bool modifier requires a comparison operator".to_owned(),
            ),
        );
    }
    let left_text = left.serialize();
    let right_text = right.serialize();
    let out = build_combined(&left_text, operator, bool_modifier, &None, &right_text);
    Ok(Scalar::from_text(out))
}

} // verus!
