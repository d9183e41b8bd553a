//! The routines on mergers in portable source text.
//!
//! In source text a merger is a structure with the fields `scalar` and
//! `vector`, and each routine is a function named after the merger type.
//! Integer arithmetic is done on unsigned numbers and converted back, so that
//! it wraps as the routines do.

use vstd::prelude::*;
use vstd::string::StringExecFns;
use crate::code::CodeView;
use crate::context::c_definition;
use crate::context::c_get_param;
use crate::context::c_scalar_type;
use crate::context::c_signature;
use crate::context::spec_c_param;
use crate::context::spec_c_scalar_type;
use crate::kinds::BinOpKind;
use crate::kinds::ScalarKind;
use crate::kinds::WIDTH;
use crate::merger::Merger;
use crate::merger::Part;
use crate::ir::Value;
use crate::numeric::binop_identity;
use crate::numeric::identity;
use vstd::pervasive::unreached;
use crate::text::decimal;
use crate::text::digits;
use crate::text::views;

verus! {

/// The unsigned kind of the same width as an integer kind; other kinds are
/// their own.
pub open spec fn spec_unsigned(kind: ScalarKind) -> ScalarKind {
    match kind {
        ScalarKind::I8 => ScalarKind::U8,
        ScalarKind::I16 => ScalarKind::U16,
        ScalarKind::I32 => ScalarKind::U32,
        ScalarKind::I64 => ScalarKind::U64,
        other => other,
    }
}

/// The unsigned kind of the same width as an integer kind.
pub fn unsigned(kind: ScalarKind) -> (u: ScalarKind)
    ensures
        u == spec_unsigned(kind),
{
    match kind {
        ScalarKind::I8 => ScalarKind::U8,
        ScalarKind::I16 => ScalarKind::U16,
        ScalarKind::I32 => ScalarKind::U32,
        ScalarKind::I64 => ScalarKind::U64,
        other => other,
    }
}

/// The sign of an arithmetic operator in source text, and the comparison
/// that selects the first operand of maximum and minimum.
pub open spec fn spec_c_operator(op: BinOpKind) -> Seq<char> {
    match op {
        BinOpKind::Add => " + "@,
        BinOpKind::Subtract => " - "@,
        BinOpKind::Multiply => " * "@,
        BinOpKind::Max => " > "@,
        _ => " < "@,
    }
}

fn c_operator(op: BinOpKind) -> (s: &'static str)
    ensures
        s@ == spec_c_operator(op),
{
    match op {
        BinOpKind::Add => " + ",
        BinOpKind::Subtract => " - ",
        BinOpKind::Multiply => " * ",
        BinOpKind::Max => " > ",
        _ => " < ",
    }
}

impl Merger {
    /// What follows the name of the merger type in the name of a routine in
    /// source text.
    pub open spec fn c_suffix(which: Part) -> Seq<char> {
        match which {
            Part::New => "_new"@,
            Part::Merge => "_merge"@,
            Part::Vmerge => "_vmerge"@,
            Part::Result => "_result"@,
        }
    }

    /// The name in source text of the type of the vector lane.
    pub open spec fn c_simd(&self) -> Seq<char> {
        self.c_elem_ty@ + "x"@ + digits(WIDTH as nat)
    }

    /// The definition of the merger type in source text.
    pub open spec fn c_merger_type(&self) -> Seq<char> {
        c_definition_of_type(self.c_elem_ty@, self.c_simd(), self.name@)
    }

    /// The name in source text of the routine's return type.
    pub open spec fn c_return(&self, which: Part) -> Seq<char> {
        match which {
            Part::New => self.name@,
            Part::Result => self.c_elem_ty@,
            _ => "void"@,
        }
    }

    /// The names in source text of the routine's parameter types.
    pub open spec fn c_types(&self, which: Part) -> Seq<Seq<char>> {
        match which {
            Part::New => seq![self.c_elem_ty@],
            Part::Merge => seq![self.name@ + "*"@, self.c_elem_ty@],
            Part::Vmerge => seq![self.name@ + "*"@, self.c_simd()],
            Part::Result => seq![self.name@ + "*"@],
        }
    }

    /// The identity of the operator in source text: for an integer kind its
    /// bit pattern, converted to the element type; for a floating-point kind
    /// the number by its name.
    pub open spec fn c_identity(&self) -> Seq<char> {
        match self.scalar_kind {
            ScalarKind::F32 => match self.op {
                BinOpKind::Add => "0"@,
                BinOpKind::Multiply => "1"@,
                BinOpKind::Max => "-FLT_MAX"@,
                _ => "FLT_MAX"@,
            },
            ScalarKind::F64 => match self.op {
                BinOpKind::Add => "0"@,
                BinOpKind::Multiply => "1"@,
                BinOpKind::Max => "-DBL_MAX"@,
                _ => "DBL_MAX"@,
            },
            _ => "("@ + self.c_elem_ty@ + ")"@ + digits(
                identity(self.op, self.scalar_kind)->0 as nat,
            ) + "ULL"@,
        }
    }

    /// The operator applied to two operands in source text.
    pub open spec fn c_apply(&self, a: Seq<char>, b: Seq<char>) -> Seq<char> {
        let unsigned = spec_c_scalar_type(spec_unsigned(self.scalar_kind));
        if self.op == BinOpKind::Max || self.op == BinOpKind::Min {
            "("@ + a + spec_c_operator(self.op) + b + " ? "@ + a + " : "@ + b + ")"@
        } else if self.scalar_kind.spec_is_float() {
            a + spec_c_operator(self.op) + b
        } else {
            "("@ + self.c_elem_ty@ + ")(("@ + unsigned + ")"@ + a + spec_c_operator(self.op) + "("@
                + unsigned + ")"@ + b + ")"@
        }
    }

    /// The statement that sets a vector lane of the result of `new`.
    pub open spec fn c_seed(&self, lane: nat) -> Seq<char> {
        "result.vector["@ + digits(lane) + "] = "@ + self.c_identity() + ";"@
    }

    /// The statement that merges a lane of the value into the vector lane.
    pub open spec fn c_merge_lane(&self, lane: nat) -> Seq<char> {
        let target = spec_c_param(0) + "->vector["@ + digits(lane) + "]"@;
        target + " = "@ + self.c_apply(target, spec_c_param(1) + "["@ + digits(lane) + "]"@)
            + ";"@
    }

    /// The statement that combines the result with a vector lane.
    pub open spec fn c_fold_lane(&self, lane: nat) -> Seq<char> {
        "result = "@ + self.c_apply(
            "result"@,
            spec_c_param(0) + "->vector["@ + digits(lane) + "]"@,
        ) + ";"@
    }

    /// The statements of the routine's body in source text.
    pub open spec fn c_statements(&self, which: Part) -> Seq<Seq<char>> {
        let a0 = spec_c_param(0);
        let a1 = spec_c_param(1);
        match which {
            Part::New => seq![
                self.name@ + " result;"@,
                "result.scalar = "@ + a0 + ";"@,
                self.c_seed(0),
                self.c_seed(1),
                self.c_seed(2),
                self.c_seed(3),
                "return result;"@,
            ],
            Part::Merge => seq![
                a0 + "->scalar"@ + " = "@ + self.c_apply(a0 + "->scalar"@, a1) + ";"@,
            ],
            Part::Vmerge => seq![
                self.c_merge_lane(0),
                self.c_merge_lane(1),
                self.c_merge_lane(2),
                self.c_merge_lane(3),
            ],
            Part::Result => seq![
                self.c_elem_ty@ + " result = "@ + a0 + "->scalar;"@,
                self.c_fold_lane(0),
                self.c_fold_lane(1),
                self.c_fold_lane(2),
                self.c_fold_lane(3),
                "return result;"@,
            ],
        }
    }

    /// The definition of the routine in source text.
    pub open spec fn c_definition(&self, which: Part) -> Seq<char> {
        c_definition(
            c_signature(
                false,
                self.c_return(which),
                self.name@ + Self::c_suffix(which),
                self.c_types(which),
            ),
            self.c_statements(which),
        )
    }

    /// The name in source text of the type of the vector lane.
    pub fn c_simd_text(&self) -> (s: String)
        ensures
            s@ == self.c_simd(),
    {
        let mut s = self.c_elem_ty.clone();
        s.append("x");
        s.append(decimal(WIDTH as u64).as_str());
        s
    }

    fn c_identity_text(&self, bits: u64) -> (s: String)
        requires
            identity(self.op, self.scalar_kind) == Some(bits),
        ensures
            s@ == self.c_identity(),
    {
        match self.scalar_kind {
            ScalarKind::F32 => String::from_str(
                match self.op {
                    BinOpKind::Add => "0",
                    BinOpKind::Multiply => "1",
                    BinOpKind::Max => "-FLT_MAX",
                    _ => "FLT_MAX",
                },
            ),
            ScalarKind::F64 => String::from_str(
                match self.op {
                    BinOpKind::Add => "0",
                    BinOpKind::Multiply => "1",
                    BinOpKind::Max => "-DBL_MAX",
                    _ => "DBL_MAX",
                },
            ),
            _ => {
                let mut s = String::from_str("(");
                s.append(self.c_elem_ty.as_str());
                s.append(")");
                s.append(decimal(bits).as_str());
                s.append("ULL");
                s
            },
        }
    }

    fn c_apply_text(&self, a: &str, b: &str) -> (s: String)
        ensures
            s@ == self.c_apply(a@, b@),
    {
        let operator = c_operator(self.op);
        if self.op == BinOpKind::Max || self.op == BinOpKind::Min {
            let mut s = String::from_str("(");
            s.append(a);
            s.append(operator);
            s.append(b);
            s.append(" ? ");
            s.append(a);
            s.append(" : ");
            s.append(b);
            s.append(")");
            s
        } else if self.scalar_kind.is_float() {
            let mut s = String::from_str(a);
            s.append(operator);
            s.append(b);
            s
        } else {
            let wide = c_scalar_type(unsigned(self.scalar_kind));
            let mut s = String::from_str("(");
            s.append(self.c_elem_ty.as_str());
            s.append(")((");
            s.append(wide);
            s.append(")");
            s.append(a);
            s.append(operator);
            s.append("(");
            s.append(wide);
            s.append(")");
            s.append(b);
            s.append(")");
            s
        }
    }

    fn c_seed_text(&self, lane: u64, seed: &str) -> (s: String)
        requires
            seed@ == self.c_identity(),
        ensures
            s@ == self.c_seed(lane as nat),
    {
        let mut s = String::from_str("result.vector[");
        s.append(decimal(lane).as_str());
        s.append("] = ");
        s.append(seed);
        s.append(";");
        s
    }

    fn c_merge_lane_text(&self, lane: u64) -> (s: String)
        ensures
            s@ == self.c_merge_lane(lane as nat),
    {
        let number = decimal(lane);
        let mut target = c_get_param(0);
        target.append("->vector[");
        target.append(number.as_str());
        target.append("]");
        let mut value = c_get_param(1);
        value.append("[");
        value.append(number.as_str());
        value.append("]");
        let mut s = target.clone();
        s.append(" = ");
        s.append(self.c_apply_text(target.as_str(), value.as_str()).as_str());
        s.append(";");
        s
    }

    fn c_fold_lane_text(&self, lane: u64) -> (s: String)
        ensures
            s@ == self.c_fold_lane(lane as nat),
    {
        let mut value = c_get_param(0);
        value.append("->vector[");
        value.append(decimal(lane).as_str());
        value.append("]");
        let mut s = String::from_str("result = ");
        s.append(self.c_apply_text("result", value.as_str()).as_str());
        s.append(";");
        s
    }

    /// The statements of the routine's body in source text. `new` needs the
    /// operator to have an identity.
    pub fn c_body(&self, which: Part) -> (v: Vec<String>)
        requires
            which == Part::New ==> identity(self.op, self.scalar_kind) is Some,
        ensures
            views(v@) == self.c_statements(which),
    {
        let a0 = c_get_param(0);
        let a1 = c_get_param(1);
        let mut v: Vec<String> = Vec::new();
        match which {
            Part::New => {
                let bits = match binop_identity(self.op, self.scalar_kind) {
                    Ok(Value::Const(_, bits)) => bits,
                    _ => unreached(),
                };
                let seed = self.c_identity_text(bits);
                let mut declared = self.name.clone();
                declared.append(" result;");
                v.push(declared);
                let mut scalar = String::from_str("result.scalar = ");
                scalar.append(a0.as_str());
                scalar.append(";");
                v.push(scalar);
                v.push(self.c_seed_text(0, seed.as_str()));
                v.push(self.c_seed_text(1, seed.as_str()));
                v.push(self.c_seed_text(2, seed.as_str()));
                v.push(self.c_seed_text(3, seed.as_str()));
                v.push(String::from_str("return result;"));
            },
            Part::Merge => {
                let mut target = a0.clone();
                target.append("->scalar");
                let mut s = target.clone();
                s.append(" = ");
                s.append(self.c_apply_text(target.as_str(), a1.as_str()).as_str());
                s.append(";");
                v.push(s);
            },
            Part::Vmerge => {
                v.push(self.c_merge_lane_text(0));
                v.push(self.c_merge_lane_text(1));
                v.push(self.c_merge_lane_text(2));
                v.push(self.c_merge_lane_text(3));
            },
            Part::Result => {
                let mut first = self.c_elem_ty.clone();
                first.append(" result = ");
                first.append(a0.as_str());
                first.append("->scalar;");
                v.push(first);
                v.push(self.c_fold_lane_text(0));
                v.push(self.c_fold_lane_text(1));
                v.push(self.c_fold_lane_text(2));
                v.push(self.c_fold_lane_text(3));
                v.push(String::from_str("return result;"));
            },
        }
        assert(views(v@) =~= self.c_statements(which));
        v
    }

    /// The names in source text of the routine's parameter types.
    pub fn c_parameter_types(&self, which: Part) -> (v: Vec<String>)
        ensures
            views(v@) == self.c_types(which),
    {
        let mut pointer = self.name.clone();
        pointer.append("*");
        let mut v: Vec<String> = Vec::new();
        match which {
            Part::New => {
                v.push(self.c_elem_ty.clone());
            },
            Part::Merge => {
                v.push(pointer);
                v.push(self.c_elem_ty.clone());
            },
            Part::Vmerge => {
                v.push(pointer);
                v.push(self.c_simd_text());
            },
            Part::Result => {
                v.push(pointer);
            },
        }
        assert(views(v@) =~= self.c_types(which));
        v
    }

    /// The name in source text of the routine's return type.
    pub fn c_return_type(&self, which: Part) -> (s: String)
        ensures
            s@ == self.c_return(which),
    {
        match which {
            Part::New => self.name.clone(),
            Part::Result => self.c_elem_ty.clone(),
            _ => String::from_str("void"),
        }
    }

    /// The name of the routine in source text.
    pub fn c_routine_name(&self, which: Part) -> (s: String)
        ensures
            s@ == self.name@ + Self::c_suffix(which),
    {
        let mut s = self.name.clone();
        s.append(
            match which {
                Part::New => "_new",
                Part::Merge => "_merge",
                Part::Vmerge => "_vmerge",
                Part::Result => "_result",
            },
        );
        s
    }
}

/// The definition in source text of a merger type with the given names of
/// its element type, of the type of its vector lane, and of itself.
pub open spec fn c_definition_of_type(elem: Seq<char>, simd: Seq<char>, name: Seq<char>) -> Seq<
    char,
> {
    CodeView::empty().add("typedef struct {"@).add(elem + " scalar;"@).add(
        simd + " vector;"@,
    ).add("} "@ + name + ";"@).text
}

} // verus!
