//! Code generation errors.

use vstd::prelude::*;
use vstd::string::StringExecFns;

verus! {

/// Errors that can occur during WASM code generation.
#[derive(Debug)]
pub enum CodegenError {
    UnsupportedType(String),
    UnsupportedControlFlow,
    MissingFunction(String),
    MissingEntryBlock,
    MissingTerminator(String),
    UnsupportedInstruction(String),
    MissingAdtDef,
    UnknownVariant(String),
}

/// The kind of a code generation error, its message aside.
pub enum ErrorKind {
    UnsupportedType,
    UnsupportedControlFlow,
    MissingFunction,
    MissingEntryBlock,
    MissingTerminator,
    UnsupportedInstruction,
    MissingAdtDef,
    UnknownVariant,
}

impl CodegenError {
    /// The kind of this error.
    pub open spec fn kind(&self) -> ErrorKind {
        match self {
            CodegenError::UnsupportedType(_) => ErrorKind::UnsupportedType,
            CodegenError::UnsupportedControlFlow => ErrorKind::UnsupportedControlFlow,
            CodegenError::MissingFunction(_) => ErrorKind::MissingFunction,
            CodegenError::MissingEntryBlock => ErrorKind::MissingEntryBlock,
            CodegenError::MissingTerminator(_) => ErrorKind::MissingTerminator,
            CodegenError::UnsupportedInstruction(_) => ErrorKind::UnsupportedInstruction,
            CodegenError::MissingAdtDef => ErrorKind::MissingAdtDef,
            CodegenError::UnknownVariant(_) => ErrorKind::UnknownVariant,
        }
    }
}

impl CodegenError {
    /// The error's message: a fixed text, followed by the detail where the error
    /// carries one.
    pub open spec fn spec_message(&self) -> Seq<char> {
        match self {
            CodegenError::UnsupportedType(s) => "unsupported type for WASM codegen: "@ + s@,
            CodegenError::UnsupportedControlFlow => "unsupported control flow pattern"@,
            CodegenError::MissingFunction(s) => "missing function: "@ + s@,
            CodegenError::MissingEntryBlock => "missing entry block"@,
            CodegenError::MissingTerminator(s) => "block missing terminator: "@ + s@,
            CodegenError::UnsupportedInstruction(s) => "unsupported instruction: "@ + s@,
            CodegenError::MissingAdtDef => "ADT type definition not found"@,
            CodegenError::UnknownVariant(s) => "unknown variant: "@ + s@,
        }
    }

    /// The error's message, as it is displayed.
    pub fn message(&self) -> (r: String)
        ensures
            r@ == self.spec_message(),
    {
        proof {
            reveal_strlit("");
        }
        match self {
            CodegenError::UnsupportedType(s) => concat3("unsupported type for WASM codegen: ", s.as_str(), ""),
            CodegenError::UnsupportedControlFlow => String::from_str("unsupported control flow pattern"),
            CodegenError::MissingFunction(s) => concat3("missing function: ", s.as_str(), ""),
            CodegenError::MissingEntryBlock => String::from_str("missing entry block"),
            CodegenError::MissingTerminator(s) => concat3("block missing terminator: ", s.as_str(), ""),
            CodegenError::UnsupportedInstruction(s) => concat3("unsupported instruction: ", s.as_str(), ""),
            CodegenError::MissingAdtDef => String::from_str("ADT type definition not found"),
            CodegenError::UnknownVariant(s) => concat3("unknown variant: ", s.as_str(), ""),
        }
    }
}

/// The concatenation of three pieces of text.
pub fn concat3(a: &str, b: &str, c: &str) -> (r: String)
    ensures
        r@ == a@ + b@ + c@,
{
    let mut s = String::from_str(a);
    s.append(b);
    s.append(c);
    s
}

} // verus!
