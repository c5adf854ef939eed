//! The bookkeeping of one atlas: which meshes it was given, whether it has
//! generated, and what each operation hands to the engine.
//!
//! The engine is driven from outside this library. Each operation here
//! decides what the engine is to be given and records what that does to the
//! atlas; whoever holds the engine carries the decision out.

use vstd::prelude::*;
use crate::decl::{MeshDecl, MeshDeclView, MeshError, MeshInput};
use crate::options::{ChartOptions, ChartParams, PackOptions, PackParams};
use crate::output::{reported, shown, views_of, Mesh, MeshRecord, MeshView};
use crate::progress::ProgressBridge;

verus! {

/// What is known of one atlas of the engine: which declarations it was
/// given, and whether it has generated.
///
/// Every declaration on record was well formed when it was accepted, so the
/// engine has never been handed a buffer shorter than it was told.
pub struct Xatlas {
    mesh_count: u32,
    generated: bool,
    added: Ghost<Seq<MeshDeclView>>,
}

/// One invocation of the engine's generation entry point: the two parameter
/// blocks to hand to it.
#[derive(Clone, Copy, Debug, PartialEq, Eq, Structural)]
pub struct GenerateCall {
    pub chart_options: ChartParams,
    pub pack_options: PackParams,
}

impl Xatlas {
    #[verifier::type_invariant]
    spec fn consistent(self) -> bool {
        &&& self.mesh_count == self.added@.len()
        &&& forall|i: int| 0 <= i < self.added@.len() ==> (#[trigger] self.added@[i]).well_formed()
    }

    /// The declarations that were accepted and handed to the engine, oldest
    /// first. This is what the engine's list of meshes was built from.
    pub closed spec fn added(&self) -> Seq<MeshDeclView> {
        self.added@
    }

    /// How many meshes the atlas has been given.
    pub open spec fn spec_mesh_count(&self) -> u32 {
        self.added().len() as u32
    }

    /// Whether the atlas has generated.
    pub closed spec fn spec_is_generated(&self) -> bool {
        self.generated
    }

    /// What `meshes` shows of the engine's result records: nothing before
    /// generation, and after it what each record reports.
    pub open spec fn visible<'a, T>(&self, output: Seq<MeshRecord<'a, T>>) -> Seq<MeshView<T>> {
        if self.spec_is_generated() {
            reported(output)
        } else {
            Seq::empty()
        }
    }

    /// A new atlas: no meshes, nothing generated.
    pub fn new() -> (atlas: Xatlas)
        ensures
            atlas.added() == Seq::<MeshDeclView>::empty(),
            !atlas.spec_is_generated(),
    {
        Xatlas { mesh_count: 0, generated: false, added: Ghost(Seq::empty()) }
    }

    /// How many meshes the atlas has been given. Every one of them was well
    /// formed when it was handed to the engine.
    #[verifier::when_used_as_spec(spec_mesh_count)]
    pub fn mesh_count(&self) -> (count: u32)
        ensures
            count == self.added().len(),
            count == self.spec_mesh_count(),
            forall|i: int| 0 <= i < self.added().len() ==> (#[trigger] self.added()[i]).well_formed(),
    {
        proof {
            use_type_invariant(self);
        }
        self.mesh_count
    }

    /// Whether the atlas has generated.
    #[verifier::when_used_as_spec(spec_is_generated)]
    pub fn is_generated(&self) -> (generated: bool)
        ensures
            generated == self.spec_is_generated(),
    {
        self.generated
    }

    /// Adds a mesh to the atlas.
    ///
    /// The declaration is validated first. If a buffer is too short the
    /// error names it, nothing is handed to the engine and the atlas is as
    /// it was. Otherwise the result is the input to hand to the engine, and
    /// the atlas holds one mesh more.
    ///
    /// The engine counts its meshes in 32 bits, so a well-formed declaration
    /// may be added only to an atlas that holds fewer than `u32::MAX` of
    /// them. A declaration that is not well formed is turned down by any
    /// atlas.
    pub fn add_mesh<'a>(&mut self, decl: &MeshDecl<'a>) -> (added: Result<MeshInput<'a>, MeshError>)
        requires
            decl@.well_formed() ==> old(self).added().len() < u32::MAX,
        ensures
            added is Ok <==> decl@.well_formed(),
            added == match decl@.violation() {
                None => Ok::<MeshInput<'a>, MeshError>(decl.marshalled()),
                Some(error) => Err(error),
            },
            added is Ok ==> final(self).added() == old(self).added().push(decl@),
            added is Err ==> final(self).added() == old(self).added(),
            added is Err ==> *final(self) == *old(self),
            final(self).spec_is_generated() == old(self).spec_is_generated(),
            decl.vertex_position_data@.len() < decl.vertex_count * decl.vertex_position_stride
                ==> added == Err::<MeshInput<'a>, MeshError>(MeshError::PositionDataTooShort)
                && *final(self) == *old(self),
            decl@.exactly_sized() ==> added is Ok
                && final(self).added().len() == old(self).added().len() + 1,
    {
        proof {
            use_type_invariant(&*self);
        }
        match decl.marshal() {
            Err(error) => Err(error),
            Ok(input) => {
                *self = Xatlas {
                    mesh_count: self.mesh_count + 1,
                    generated: self.generated,
                    added: Ghost(self.added@.push(decl@)),
                };
                Ok(input)
            },
        }
    }

    /// Starts generation without progress reports.
    ///
    /// The result holds the two options laid out as the engine's parameter
    /// blocks; the engine is given no progress callback. The engine does not
    /// define a second generation on one atlas, so the atlas must not have
    /// generated before.
    pub fn generate_simple(
        &mut self,
        chart_opts: ChartOptions,
        pack_opts: PackOptions,
    ) -> (call: GenerateCall)
        requires
            !old(self).spec_is_generated(),
        ensures
            call.chart_options == chart_opts.params(),
            call.pack_options == pack_opts.params(),
            final(self).spec_is_generated(),
            final(self).added() == old(self).added(),
    {
        proof {
            use_type_invariant(&*self);
        }
        self.generated = true;
        GenerateCall { chart_options: chart_opts.convert(), pack_options: pack_opts.convert() }
    }

    /// Starts generation with progress reports.
    ///
    /// The result holds the two options laid out as the engine's parameter
    /// blocks, and a fresh bridge through which every report of the engine
    /// passes on its way to the caller's sink. The engine does not define a
    /// second generation on one atlas, so the atlas must not have generated
    /// before.
    pub fn generate(
        &mut self,
        chart_opts: ChartOptions,
        pack_opts: PackOptions,
    ) -> (started: (GenerateCall, ProgressBridge))
        requires
            !old(self).spec_is_generated(),
        ensures
            started.0.chart_options == chart_opts.params(),
            started.0.pack_options == pack_opts.params(),
            started.1.fresh(),
            final(self).spec_is_generated(),
            final(self).added() == old(self).added(),
    {
        proof {
            use_type_invariant(&*self);
        }
        self.generated = true;
        (
            GenerateCall { chart_options: chart_opts.convert(), pack_options: pack_opts.convert() },
            ProgressBridge::new(),
        )
    }

    /// The views of what the atlas generated.
    ///
    /// `output` is the engine's list of result records. Before generation
    /// there is nothing to show. After it there is one view for each record,
    /// in the same order, each showing exactly what its record reports. The
    /// views borrow the atlas, so none of them outlives it or is held across
    /// a later change to it.
    pub fn meshes<'a, T>(&'a self, output: &[MeshRecord<'a, T>]) -> (views: Vec<Mesh<'a, T>>)
        ensures
            shown(views@) == self.visible(output@),
    {
        if self.generated {
            views_of(output)
        } else {
            let views: Vec<Mesh<'a, T>> = Vec::new();
            assert(shown(views@) =~= Seq::<MeshView<T>>::empty());
            views
        }
    }
}

/// Two readings of the same result from the same atlas, with nothing done to
/// the atlas in between, show the same content.
pub proof fn lemma_views_stable<'a, T>(
    atlas: Xatlas,
    output: Seq<MeshRecord<'a, T>>,
    first: Seq<Mesh<'a, T>>,
    second: Seq<Mesh<'a, T>>,
)
    requires
        shown(first) == atlas.visible(output),
        shown(second) == atlas.visible(output),
    ensures
        shown(first) == shown(second),
        first.len() == second.len(),
        forall|i: int| 0 <= i < first.len() ==> (#[trigger] first[i])@ == second[i]@,
{
    assert(shown(first).len() == first.len());
    assert(shown(second).len() == second.len());
    assert forall|i: int| 0 <= i < first.len() implies (#[trigger] first[i])@ == second[i]@ by {
        assert(shown(first)[i] == first[i]@);
        assert(shown(second)[i] == second[i]@);
    }
}

} // verus!
