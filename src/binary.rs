use vstd::prelude::*;

use crate::error::LoadError;

verus! {

/// The two binary formats a component source may hold.
#[derive(Debug, Clone, Copy, PartialEq, Eq, Structural)]
pub enum BinaryKind {
    /// A core module: flat function-level imports and exports.
    Module,
    /// A component: interface-typed imports and exports.
    Component,
    /// Neither header is present.
    Unrecognized,
}

/// Whether `b` starts with the wasm magic number followed by the given
/// version and layer fields.
pub open spec fn has_header(b: Seq<u8>, v0: u8, v1: u8, l0: u8, l1: u8) -> bool {
    &&& b.len() >= 8
    &&& b[0] == 0x00u8
    &&& b[1] == 0x61u8
    &&& b[2] == 0x73u8
    &&& b[3] == 0x6du8
    &&& b[4] == v0
    &&& b[5] == v1
    &&& b[6] == l0
    &&& b[7] == l1
}

/// Whether wasmparser's validator, with its default features, accepts `b`.
pub uninterp spec fn wasm_valid(b: Seq<u8>) -> bool;

/// Relies on wasmparser::Validator::validate_all: true when the whole binary,
/// module or component, is well formed and valid.
#[verifier::external_body]
fn validates(b: &Vec<u8>) -> (r: bool)
    ensures
        r == wasm_valid(b@),
{
    wasmparser::Validator::new().validate_all(b.as_slice()).is_ok()
}

/// The format of a valid binary, read from its preamble: version 1 in the
/// core layer is a module, version 0x0d in the component layer is a
/// component. A binary that fails validation is neither.
pub open spec fn binary_kind(b: Seq<u8>) -> BinaryKind {
    if !wasm_valid(b) {
        BinaryKind::Unrecognized
    } else if has_header(b, 0x01, 0x00, 0x00, 0x00) {
        BinaryKind::Module
    } else if has_header(b, 0x0d, 0x00, 0x01, 0x00) {
        BinaryKind::Component
    } else {
        BinaryKind::Unrecognized
    }
}

fn header_is(b: &Vec<u8>, v0: u8, v1: u8, l0: u8, l1: u8) -> (r: bool)
    ensures
        r == has_header(b@, v0, v1, l0, l1),
{
    b.len() >= 8 && b[0] == 0x00u8 && b[1] == 0x61u8 && b[2] == 0x73u8 && b[3] == 0x6du8
        && b[4] == v0 && b[5] == v1 && b[6] == l0 && b[7] == l1
}

/// Classifies a binary as exactly one of module, component or unrecognized:
/// a malformed binary is unrecognized whatever its preamble says.
pub fn classify(b: &Vec<u8>) -> (r: BinaryKind)
    ensures
        r == binary_kind(b@),
{
    if !validates(b) {
        BinaryKind::Unrecognized
    } else if header_is(b, 0x01, 0x00, 0x00, 0x00) {
        BinaryKind::Module
    } else if header_is(b, 0x0d, 0x00, 0x01, 0x00) {
        BinaryKind::Component
    } else {
        BinaryKind::Unrecognized
    }
}

/// A component binary ready for the world check, and whether it was supplied
/// as a component rather than produced from a module.
pub struct Normalized {
    pub bytes: Vec<u8>,
    pub already_component: bool,
}

/// What normalization yields for `bytes`, given what the componentize
/// transform produced for it (`None` where it failed or was not run).
pub open spec fn normalized(bytes: Seq<u8>, componentized: Option<Seq<u8>>) -> Result<(Seq<u8>, bool), LoadError> {
    match binary_kind(bytes) {
        BinaryKind::Component => Ok((bytes, true)),
        BinaryKind::Module => match componentized {
            Some(c) => if binary_kind(c) == BinaryKind::Component {
                Ok((c, false))
            } else {
                Err(LoadError::UnrecognizedBinary)
            },
            None => Err(LoadError::UnrecognizedBinary),
        },
        BinaryKind::Unrecognized => Err(LoadError::UnrecognizedBinary),
    }
}

/// The view of an optional byte buffer.
pub open spec fn opt_bytes(o: Option<Vec<u8>>) -> Option<Seq<u8>> {
    match o {
        Some(v) => Some(v@),
        None => None,
    }
}

/// Turns a binary into a component binary. A component passes through
/// unchanged and is flagged as such; a module is replaced by its
/// componentized form, which must itself be a component.
pub fn normalize_binary(bytes: Vec<u8>, componentized: Option<Vec<u8>>) -> (r: Result<Normalized, LoadError>)
    ensures
        match normalized(bytes@, opt_bytes(componentized)) {
            Ok((b, c)) => r is Ok && r->Ok_0.bytes@ == b && r->Ok_0.already_component == c,
            Err(e) => r == Err::<Normalized, LoadError>(e),
        },
{
    match classify(&bytes) {
        BinaryKind::Component => Ok(Normalized { bytes, already_component: true }),
        BinaryKind::Module => match componentized {
            Some(c) => {
                if classify(&c) == BinaryKind::Component {
                    Ok(Normalized { bytes: c, already_component: false })
                } else {
                    Err(LoadError::UnrecognizedBinary)
                }
            },
            None => Err(LoadError::UnrecognizedBinary),
        },
        BinaryKind::Unrecognized => Err(LoadError::UnrecognizedBinary),
    }
}

/// A core module reaches the world check only as its componentized form:
/// where normalization of a module succeeds, the binary handed on is the
/// transform's output, it is a component, and it is not flagged as supplied
/// as one.
pub proof fn module_is_componentized_before_adaptation(bytes: Seq<u8>, componentized: Option<Seq<u8>>)
    requires
        binary_kind(bytes) == BinaryKind::Module,
    ensures
        normalized(bytes, componentized) matches Ok((c, already)) ==> {
            &&& componentized == Some(c)
            &&& binary_kind(c) == BinaryKind::Component
            &&& !already
        },
{
}

/// Whatever normalization hands on is a component binary, the only kind the
/// world check takes.
pub proof fn normalized_binary_is_component(bytes: Seq<u8>, componentized: Option<Seq<u8>>)
    ensures
        normalized(bytes, componentized) matches Ok((c, _)) ==> binary_kind(c) == BinaryKind::Component,
{
}

} // verus!
