use vstd::prelude::*;

use crate::binary::{binary_kind, classify, opt_bytes, BinaryKind};
use crate::error::LoadError;

verus! {

#[verifier::external_type_specification]
#[verifier::external_body]
pub struct ExResolve(wit_parser::Resolve);

#[verifier::external_type_specification]
#[verifier::external_body]
pub struct ExWorld(wit_parser::World);

#[verifier::external_type_specification]
#[verifier::external_body]
pub struct ExPackage(wit_parser::Package);

#[verifier::external_type_specification]
#[verifier::external_body]
#[verifier::reject_recursive_types(T)]
pub struct ExId<T>(id_arena::Id<T>);

/// The package registered in `resolve` under `namespace:name` without a version.
pub uninterp spec fn package_named(
    resolve: wit_parser::Resolve,
    namespace: Seq<char>,
    name: Seq<char>,
) -> Option<id_arena::Id<wit_parser::Package>>;

/// Whether `pkg` is an id of `resolve`'s own package arena.
pub uninterp spec fn package_of(resolve: wit_parser::Resolve, pkg: id_arena::Id<wit_parser::Package>) -> bool;

/// The world that `Resolve::select_world` picks by name in package `pkg`.
pub uninterp spec fn world_selected(
    resolve: wit_parser::Resolve,
    pkg: id_arena::Id<wit_parser::Package>,
    world: Seq<char>,
) -> Option<id_arena::Id<wit_parser::World>>;

/// Whether `world` is an id of `resolve`'s own world arena.
pub uninterp spec fn world_of(resolve: wit_parser::Resolve, world: id_arena::Id<wit_parser::World>) -> bool;

/// The resolve after `Resolve::merge_worlds` merged `from` into `into`, or
/// `None` where the merge is refused.
pub uninterp spec fn merged_worlds(
    resolve: wit_parser::Resolve,
    from: id_arena::Id<wit_parser::World>,
    into: id_arena::Id<wit_parser::World>,
) -> Option<wit_parser::Resolve>;

/// Whether `wit_component::targets` accepts `component` for `world` of `resolve`.
pub uninterp spec fn world_conforms(
    resolve: wit_parser::Resolve,
    world: id_arena::Id<wit_parser::World>,
    component: Seq<u8>,
) -> bool;

/// Relies on the `package_names` index of wit_parser::Resolve: the id of the
/// package registered under `namespace:name` without a version, if any. The
/// index only holds ids that `resolve` allocated for its packages.
#[verifier::external_body]
fn find_package(resolve: &wit_parser::Resolve, namespace: &str, name: &str) -> (r: Option<
    id_arena::Id<wit_parser::Package>,
>)
    ensures
        r == package_named(*resolve, namespace@, name@),
        r matches Some(p) ==> package_of(*resolve, p),
{
    let key = wit_parser::PackageName {
        namespace: namespace.to_string(),
        name: name.to_string(),
        version: None,
    };
    resolve.package_names.get(&key).copied()
}

/// Relies on wit_parser::Resolve::select_world, which indexes the package
/// arena with `pkg` (hence the `requires`) and returns a world id of that
/// package.
#[verifier::external_body]
fn select_world(
    resolve: &wit_parser::Resolve,
    pkg: id_arena::Id<wit_parser::Package>,
    world: &str,
) -> (r: Option<id_arena::Id<wit_parser::World>>)
    requires
        package_of(*resolve, pkg),
    ensures
        r == world_selected(*resolve, pkg, world@),
        r matches Some(w) ==> world_of(*resolve, w),
{
    resolve.select_world(&[pkg], Some(world)).ok()
}

/// Relies on wit_parser::Resolve::merge_worlds, which indexes the world arena
/// with both ids, reports every refusal before it changes anything, and on
/// success only adds to `into` and to the arenas.
#[verifier::external_body]
fn merge_worlds(
    resolve: &mut wit_parser::Resolve,
    from: id_arena::Id<wit_parser::World>,
    into: id_arena::Id<wit_parser::World>,
) -> (r: bool)
    requires
        world_of(*old(resolve), from),
        world_of(*old(resolve), into),
    ensures
        r == merged_worlds(*old(resolve), from, into) is Some,
        r ==> merged_worlds(*old(resolve), from, into) == Some(*final(resolve)),
        !r ==> *final(resolve) == *old(resolve),
        r ==> world_of(*final(resolve), into),
{
    let mut clone_maps = wit_parser::CloneMaps::default();
    resolve.merge_worlds(from, into, &mut clone_maps).is_ok()
}

/// Relies on wit_component::targets, which indexes the world arena with
/// `world`: true when the component binary conforms to that world.
#[verifier::external_body]
fn world_targets(
    resolve: &wit_parser::Resolve,
    world: id_arena::Id<wit_parser::World>,
    component: &Vec<u8>,
) -> (r: bool)
    requires
        world_of(*resolve, world),
    ensures
        r == world_conforms(*resolve, world, component@),
{
    wit_component::targets(resolve, world, component.as_slice(), false).is_ok()
}

/// The merged target world of a resolve: the `platform` world of the
/// `fermyon:spin` package with the `preview1-adapter-reactor` world of the
/// `wasmtime:wasi` package merged into it, and the id of the merged world.
pub open spec fn target_world_of(r: wit_parser::Resolve) -> Option<(wit_parser::Resolve, id_arena::Id<wit_parser::World>)> {
    match package_named(r, "fermyon"@, "spin"@) {
        None => None,
        Some(sp) => match world_selected(r, sp, "platform"@) {
            None => None,
            Some(sw) => match package_named(r, "wasmtime"@, "wasi"@) {
                None => None,
                Some(wp) => match world_selected(r, wp, "preview1-adapter-reactor"@) {
                    None => None,
                    Some(ww) => match merged_worlds(r, ww, sw) {
                        None => None,
                        Some(m) => Some((m, sw)),
                    },
                },
            },
        },
    }
}

/// The merged target world: a resolve and the id of the world in it that
/// component binaries are checked against.
pub struct TargetWorld {
    resolve: wit_parser::Resolve,
    world: id_arena::Id<wit_parser::World>,
}

impl TargetWorld {
    /// The world id always belongs to the resolve it is used with.
    #[verifier::type_invariant]
    spec fn inv(self) -> bool {
        world_of(self.resolve, self.world)
    }

    pub closed spec fn spec_resolve(self) -> wit_parser::Resolve {
        self.resolve
    }

    pub closed spec fn spec_world(self) -> id_arena::Id<wit_parser::World> {
        self.world
    }

    /// Whether a component binary conforms to this world.
    pub open spec fn spec_accepts(self, component: Seq<u8>) -> bool {
        world_conforms(self.spec_resolve(), self.spec_world(), component)
    }

    /// Selects the `platform` world of the `fermyon:spin` package and the
    /// `preview1-adapter-reactor` world of the `wasmtime:wasi` package from a
    /// resolve that holds both packages, and merges the second into the first.
    /// Any lookup, selection or merge failure is `ContractResolution`.
    pub fn new(resolve: wit_parser::Resolve) -> (r: Result<TargetWorld, LoadError>)
        ensures
            match target_world_of(resolve) {
                None => r == Err::<TargetWorld, LoadError>(LoadError::ContractResolution),
                Some((m, w)) => r is Ok && r->Ok_0.spec_resolve() == m && r->Ok_0.spec_world() == w,
            },
    {
        let mut resolve = resolve;
        let spin_pkg = match find_package(&resolve, "fermyon", "spin") {
            Some(p) => p,
            None => return Err(LoadError::ContractResolution),
        };
        let spin_world = match select_world(&resolve, spin_pkg, "platform") {
            Some(w) => w,
            None => return Err(LoadError::ContractResolution),
        };
        let wasi_pkg = match find_package(&resolve, "wasmtime", "wasi") {
            Some(p) => p,
            None => return Err(LoadError::ContractResolution),
        };
        let wasi_world = match select_world(&resolve, wasi_pkg, "preview1-adapter-reactor") {
            Some(w) => w,
            None => return Err(LoadError::ContractResolution),
        };
        if !merge_worlds(&mut resolve, wasi_world, spin_world) {
            return Err(LoadError::ContractResolution);
        }
        Ok(TargetWorld { resolve, world: spin_world })
    }

    /// Whether a component binary conforms to this world.
    pub fn accepts(&self, component: &Vec<u8>) -> (r: bool)
        ensures
            r == self.spec_accepts(component@),
    {
        proof {
            use_type_invariant(self);
        }
        world_targets(&self.resolve, self.world, component)
    }
}

/// A component binary after the world check: the input itself where it
/// already conformed, or the binary composed with the bridging adapter.
pub enum Adaptation {
    Unchanged(Vec<u8>),
    Adapted(Vec<u8>),
}

/// A plain-value view of an adaptation outcome: whether the binary was
/// replaced, and the binary handed on.
pub open spec fn adaptation_view(r: Result<Adaptation, LoadError>) -> Result<(bool, Seq<u8>), LoadError> {
    match r {
        Ok(Adaptation::Unchanged(b)) => Ok((false, b@)),
        Ok(Adaptation::Adapted(b)) => Ok((true, b@)),
        Err(e) => Err(e),
    }
}

/// The adaptation decision for `component`, given the verdict of the direct
/// check, the binary composed with the adapter (if one was available) and the
/// verdict of the check on that composed binary.
pub open spec fn adaptation(
    component: Seq<u8>,
    direct_ok: bool,
    composed: Option<Seq<u8>>,
    composed_ok: bool,
) -> Result<(bool, Seq<u8>), LoadError> {
    if direct_ok {
        Ok((false, component))
    } else {
        match composed {
            None => Err(LoadError::NoAdapterAvailable),
            Some(c) => if binary_kind(c) == BinaryKind::Component && composed_ok {
                Ok((true, c))
            } else {
                Err(LoadError::IncompatibleWorld)
            },
        }
    }
}

/// Decides the outcome of the world check from the verdicts of the two
/// checks: pass-through, the composed binary, or the matching failure.
pub fn decide_adaptation(
    component: Vec<u8>,
    direct_ok: bool,
    composed: Option<Vec<u8>>,
    composed_ok: bool,
) -> (r: Result<Adaptation, LoadError>)
    ensures
        adaptation_view(r) == adaptation(component@, direct_ok, opt_bytes(composed), composed_ok),
{
    if direct_ok {
        return Ok(Adaptation::Unchanged(component));
    }
    match composed {
        None => Err(LoadError::NoAdapterAvailable),
        Some(c) => {
            if classify(&c) == BinaryKind::Component && composed_ok {
                Ok(Adaptation::Adapted(c))
            } else {
                Err(LoadError::IncompatibleWorld)
            }
        },
    }
}

/// Whether the adapter-composed binary, if any, is a component that
/// conforms to the target world.
pub open spec fn composed_verdict(t: TargetWorld, composed: Option<Seq<u8>>) -> bool {
    match composed {
        Some(c) => binary_kind(c) == BinaryKind::Component && t.spec_accepts(c),
        None => false,
    }
}

/// The adaptation outcome for `component` against the target world `t`.
pub open spec fn world_adaptation(t: TargetWorld, component: Seq<u8>, composed: Option<Seq<u8>>) -> Result<(bool, Seq<u8>), LoadError> {
    adaptation(component, t.spec_accepts(component), composed, composed_verdict(t, composed))
}

/// Brings a component binary to the target world. A conforming binary is
/// returned unchanged and `composed` is not looked at. Otherwise, without an
/// adapter-composed binary the result is `NoAdapterAvailable`, which tells
/// the caller to compose and call again; with one, it is checked in turn and
/// returned if it conforms, else `IncompatibleWorld`.
pub fn adapt_old_worlds_to_new(
    target: &TargetWorld,
    component: Vec<u8>,
    composed: Option<Vec<u8>>,
) -> (r: Result<Adaptation, LoadError>)
    requires
        binary_kind(component@) == BinaryKind::Component,
    ensures
        adaptation_view(r) == world_adaptation(*target, component@, opt_bytes(composed)),
{
    let ghost cv = opt_bytes(composed);
    let direct_ok = target.accepts(&component);
    if direct_ok {
        return decide_adaptation(component, true, composed, false);
    }
    let composed_ok = match &composed {
        Some(c) => if classify(c) == BinaryKind::Component {
            target.accepts(c)
        } else {
            false
        },
        None => false,
    };
    assert(composed_ok == composed_verdict(*target, cv));
    decide_adaptation(component, false, composed, composed_ok)
}

/// A binary that already conforms to the target world comes back byte for
/// byte, whatever adapter output is at hand.
pub proof fn conformant_binary_passes_through(t: TargetWorld, component: Seq<u8>, composed: Option<Seq<u8>>)
    requires
        t.spec_accepts(component),
    ensures
        world_adaptation(t, component, composed) == Ok::<(bool, Seq<u8>), LoadError>((false, component)),
{
}

} // verus!
