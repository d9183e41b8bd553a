//! The routines on vectors in portable source text.
//!
//! In source text a vector is a structure with the fields `data` and `size`,
//! and each routine is a function named after the vector type. `at` and
//! `size` take a pointer to the vector, the other routines the vector itself.

use vstd::prelude::*;
use vstd::string::StringExecFns;
use crate::context::c_definition;
use crate::context::c_get_param;
use crate::context::c_signature;
use crate::context::spec_c_param;
use crate::kinds::WIDTH;
use crate::text::decimal;
use crate::text::digits;
use crate::text::views;
use crate::vector::Routine;
use crate::vector::Vector;

verus! {

impl Vector {
    /// What follows the name of the vector type in the name of a routine in
    /// source text.
    pub open spec fn c_suffix(which: Routine) -> Seq<char> {
        match which {
            Routine::New => "_new"@,
            Routine::Clone => "_clone"@,
            Routine::At => "_at"@,
            Routine::Vat => "_vat"@,
            Routine::Size => "_size"@,
            Routine::Slice => "_slice"@,
            Routine::Extend => "_extend"@,
        }
    }

    /// The name under which the vector type has recorded the routine in
    /// source text.
    pub open spec fn c_name(&self, which: Routine) -> Seq<char> {
        match which {
            Routine::New => self.c_new@,
            Routine::Clone => self.c_clone@,
            Routine::At => self.c_at@,
            Routine::Vat => self.c_vat@,
            Routine::Size => self.c_size@,
            Routine::Slice => self.c_slice@,
            Routine::Extend => self.c_extend@,
        }
    }

    /// The name in source text of the type of `WIDTH` elements.
    pub open spec fn c_simd(&self) -> Seq<char> {
        self.c_elem_ty@ + "x"@ + digits(WIDTH as nat)
    }

    /// Whether the routine is marked for inlining.
    pub open spec fn c_inline(which: Routine) -> bool {
        which == Routine::At || which == Routine::Vat || which == Routine::Size
    }

    /// The name in source text of the routine's return type.
    pub open spec fn c_return(&self, which: Routine) -> Seq<char> {
        match which {
            Routine::At => self.c_elem_ty@ + "*"@,
            Routine::Vat => self.c_simd() + "*"@,
            Routine::Size => "uint64_t"@,
            _ => self.name@,
        }
    }

    /// The names in source text of the routine's parameter types.
    pub open spec fn c_types(&self, which: Routine) -> Seq<Seq<char>> {
        match which {
            Routine::New => seq!["int64_t"@, "WeldRuntimeContextRef"@],
            Routine::Clone => seq![self.name@, "WeldRuntimeContextRef"@],
            Routine::At => seq![self.name@ + "*"@, "uint64_t"@],
            Routine::Vat => seq![self.name@, "int64_t"@],
            Routine::Size => seq![self.name@ + "*"@],
            Routine::Slice => seq![self.name@, "int64_t"@, "int64_t"@],
            Routine::Extend => seq![self.name@, "int64_t"@, "WeldRuntimeContextRef"@],
        }
    }

    /// The statement that declares the result of a routine.
    pub open spec fn c_declare_result(&self) -> Seq<char> {
        self.name@ + " result;"@
    }

    /// The statement that allocates the elements of the result through the
    /// given entry point of the runtime, with the given arguments.
    pub open spec fn c_allocate(&self, entry: Seq<char>, arguments: Seq<char>) -> Seq<char> {
        "result.data = ("@ + self.c_elem_ty@ + "*)"@ + entry + "("@ + arguments + ");"@
    }

    /// The number of bytes that `count` elements take, as an expression.
    pub open spec fn c_bytes(&self, count: Seq<char>) -> Seq<char> {
        "(int64_t)sizeof("@ + self.c_elem_ty@ + ") * "@ + count
    }

    /// The statements of the routine's body in source text.
    pub open spec fn c_statements(&self, which: Routine) -> Seq<Seq<char>> {
        let a0 = spec_c_param(0);
        let a1 = spec_c_param(1);
        let a2 = spec_c_param(2);
        match which {
            Routine::New => seq![
                self.c_declare_result(),
                self.c_allocate("weld_runst_malloc"@, a1 + ", "@ + self.c_bytes(a0)),
                "result.size = "@ + a0 + ";"@,
                "return result;"@,
            ],
            Routine::Clone => seq![
                self.c_declare_result(),
                self.c_allocate(
                    "weld_runst_malloc"@,
                    a1 + ", "@ + self.c_bytes("(int64_t)"@ + a0 + ".size"@),
                ),
                "memcpy(result.data, "@ + a0 + ".data, "@ + self.c_bytes(
                    "(int64_t)"@ + a0 + ".size"@,
                ) + ");"@,
                "result.size = "@ + a0 + ".size;"@,
                "return result;"@,
            ],
            Routine::At => seq!["return &"@ + a0 + "->data["@ + a1 + "];"@],
            Routine::Vat => seq![
                "return ("@ + self.c_simd() + "*)&"@ + a0 + ".data["@ + a1 + "];"@,
            ],
            Routine::Size => seq!["return "@ + a0 + "->size;"@],
            Routine::Slice => seq![
                self.c_declare_result(),
                "uint64_t remaining = "@ + a0 + ".size - (uint64_t)"@ + a1 + ";"@,
                "result.data = &"@ + a0 + ".data["@ + a1 + "];"@,
                "result.size = (uint64_t)"@ + a2 + " > remaining ? remaining : (uint64_t)"@ + a2
                    + ";"@,
                "return result;"@,
            ],
            Routine::Extend => seq![
                "if ("@ + a1 + " <= (int64_t)"@ + a0 + ".size) return "@ + a0 + ";"@,
                self.c_declare_result(),
                self.c_allocate(
                    "weld_runst_realloc"@,
                    a2 + ", "@ + a0 + ".data, "@ + self.c_bytes(a1),
                ),
                "result.size = "@ + a1 + ";"@,
                "return result;"@,
            ],
        }
    }

    /// The definition of the routine in source text.
    pub open spec fn c_definition(&self, which: Routine) -> Seq<char> {
        c_definition(
            c_signature(
                Self::c_inline(which),
                self.c_return(which),
                self.name@ + Self::c_suffix(which),
                self.c_types(which),
            ),
            self.c_statements(which),
        )
    }

    fn c_declare_result_text(&self) -> (s: String)
        ensures
            s@ == self.c_declare_result(),
    {
        let mut s = self.name.clone();
        s.append(" result;");
        s
    }

    fn c_bytes_text(&self, count: &str) -> (s: String)
        ensures
            s@ == self.c_bytes(count@),
    {
        let mut s = String::from_str("(int64_t)sizeof(");
        s.append(self.c_elem_ty.as_str());
        s.append(") * ");
        s.append(count);
        s
    }

    fn c_allocate_text(&self, entry: &str, arguments: &str) -> (s: String)
        ensures
            s@ == self.c_allocate(entry@, arguments@),
    {
        let mut s = String::from_str("result.data = (");
        s.append(self.c_elem_ty.as_str());
        s.append("*)");
        s.append(entry);
        s.append("(");
        s.append(arguments);
        s.append(");");
        s
    }

    /// The name in source text of the type of `WIDTH` elements.
    pub fn c_simd_text(&self) -> (s: String)
        ensures
            s@ == self.c_simd(),
    {
        let mut s = self.c_elem_ty.clone();
        s.append("x");
        s.append(decimal(WIDTH as u64).as_str());
        s
    }

    /// The statements of the routine's body in source text.
    pub fn c_body(&self, which: Routine) -> (v: Vec<String>)
        ensures
            views(v@) == self.c_statements(which),
    {
        let a0 = c_get_param(0);
        let a1 = c_get_param(1);
        let a2 = c_get_param(2);
        let mut v: Vec<String> = Vec::new();
        match which {
            Routine::New => {
                v.push(self.c_declare_result_text());
                let mut arguments = a1.clone();
                arguments.append(", ");
                arguments.append(self.c_bytes_text(a0.as_str()).as_str());
                v.push(self.c_allocate_text("weld_runst_malloc", arguments.as_str()));
                let mut size = String::from_str("result.size = ");
                size.append(a0.as_str());
                size.append(";");
                v.push(size);
                v.push(String::from_str("return result;"));
            },
            Routine::Clone => {
                v.push(self.c_declare_result_text());
                let mut count = String::from_str("(int64_t)");
                count.append(a0.as_str());
                count.append(".size");
                let bytes = self.c_bytes_text(count.as_str());
                let mut arguments = a1.clone();
                arguments.append(", ");
                arguments.append(bytes.as_str());
                v.push(self.c_allocate_text("weld_runst_malloc", arguments.as_str()));
                let mut copy = String::from_str("memcpy(result.data, ");
                copy.append(a0.as_str());
                copy.append(".data, ");
                copy.append(bytes.as_str());
                copy.append(");");
                v.push(copy);
                let mut size = String::from_str("result.size = ");
                size.append(a0.as_str());
                size.append(".size;");
                v.push(size);
                v.push(String::from_str("return result;"));
            },
            Routine::At => {
                let mut line = String::from_str("return &");
                line.append(a0.as_str());
                line.append("->data[");
                line.append(a1.as_str());
                line.append("];");
                v.push(line);
            },
            Routine::Vat => {
                let mut line = String::from_str("return (");
                line.append(self.c_simd_text().as_str());
                line.append("*)&");
                line.append(a0.as_str());
                line.append(".data[");
                line.append(a1.as_str());
                line.append("];");
                v.push(line);
            },
            Routine::Size => {
                let mut line = String::from_str("return ");
                line.append(a0.as_str());
                line.append("->size;");
                v.push(line);
            },
            Routine::Slice => {
                v.push(self.c_declare_result_text());
                let mut remaining = String::from_str("uint64_t remaining = ");
                remaining.append(a0.as_str());
                remaining.append(".size - (uint64_t)");
                remaining.append(a1.as_str());
                remaining.append(";");
                v.push(remaining);
                let mut data = String::from_str("result.data = &");
                data.append(a0.as_str());
                data.append(".data[");
                data.append(a1.as_str());
                data.append("];");
                v.push(data);
                let mut size = String::from_str("result.size = (uint64_t)");
                size.append(a2.as_str());
                size.append(" > remaining ? remaining : (uint64_t)");
                size.append(a2.as_str());
                size.append(";");
                v.push(size);
                v.push(String::from_str("return result;"));
            },
            Routine::Extend => {
                let mut kept = String::from_str("if (");
                kept.append(a1.as_str());
                kept.append(" <= (int64_t)");
                kept.append(a0.as_str());
                kept.append(".size) return ");
                kept.append(a0.as_str());
                kept.append(";");
                v.push(kept);
                v.push(self.c_declare_result_text());
                let mut arguments = a2.clone();
                arguments.append(", ");
                arguments.append(a0.as_str());
                arguments.append(".data, ");
                arguments.append(self.c_bytes_text(a1.as_str()).as_str());
                v.push(self.c_allocate_text("weld_runst_realloc", arguments.as_str()));
                let mut size = String::from_str("result.size = ");
                size.append(a1.as_str());
                size.append(";");
                v.push(size);
                v.push(String::from_str("return result;"));
            },
        }
        assert(views(v@) =~= self.c_statements(which));
        v
    }

    /// The names in source text of the routine's parameter types.
    pub fn c_parameter_types(&self, which: Routine) -> (v: Vec<String>)
        ensures
            views(v@) == self.c_types(which),
    {
        let mut v: Vec<String> = Vec::new();
        match which {
            Routine::New => {
                v.push(String::from_str("int64_t"));
                v.push(String::from_str("WeldRuntimeContextRef"));
            },
            Routine::Clone => {
                v.push(self.name.clone());
                v.push(String::from_str("WeldRuntimeContextRef"));
            },
            Routine::At => {
                let mut pointer = self.name.clone();
                pointer.append("*");
                v.push(pointer);
                v.push(String::from_str("uint64_t"));
            },
            Routine::Vat => {
                v.push(self.name.clone());
                v.push(String::from_str("int64_t"));
            },
            Routine::Size => {
                let mut pointer = self.name.clone();
                pointer.append("*");
                v.push(pointer);
            },
            Routine::Slice => {
                v.push(self.name.clone());
                v.push(String::from_str("int64_t"));
                v.push(String::from_str("int64_t"));
            },
            Routine::Extend => {
                v.push(self.name.clone());
                v.push(String::from_str("int64_t"));
                v.push(String::from_str("WeldRuntimeContextRef"));
            },
        }
        assert(views(v@) =~= self.c_types(which));
        v
    }

    /// The name in source text of the routine's return type.
    pub fn c_return_type(&self, which: Routine) -> (s: String)
        ensures
            s@ == self.c_return(which),
    {
        match which {
            Routine::At => {
                let mut s = self.c_elem_ty.clone();
                s.append("*");
                s
            },
            Routine::Vat => {
                let mut s = self.c_simd_text();
                s.append("*");
                s
            },
            Routine::Size => String::from_str("uint64_t"),
            _ => self.name.clone(),
        }
    }

    /// The name of the routine in source text.
    pub fn c_routine_name(&self, which: Routine) -> (s: String)
        ensures
            s@ == self.name@ + Self::c_suffix(which),
    {
        let mut s = self.name.clone();
        s.append(
            match which {
                Routine::New => "_new",
                Routine::Clone => "_clone",
                Routine::At => "_at",
                Routine::Vat => "_vat",
                Routine::Size => "_size",
                Routine::Slice => "_slice",
                Routine::Extend => "_extend",
            },
        );
        s
    }
}

} // verus!
