//! What generation produced: the records in which the engine reports its
//! result, and the read-only views that callers get of them.
//!
//! Records and views borrow the engine's buffers; nothing is copied but the
//! list of charts. The entries of the vertex buffer are read by the caller
//! only, so records and views take them in whatever form the holder of the
//! engine has them; `Vertex` is the form with its numbers as bit patterns.

use vstd::prelude::*;
use crate::scalar::Scalar;

verus! {

/// What a chart shows: the atlas it was placed in and the indices of its
/// faces within its mesh.
pub struct ChartView {
    pub atlas_index: u32,
    pub indices: Seq<u32>,
}

/// What a generated mesh shows: its charts in order, its index list and its
/// vertex list.
pub struct MeshView<T> {
    pub charts: Seq<ChartView>,
    pub indices: Seq<u32>,
    pub vertices: Seq<T>,
}

/// One vertex of a generated mesh.
#[derive(Clone, Copy, Debug, PartialEq, Eq)]
pub struct Vertex {
    /// The atlas that the vertex was placed in.
    pub atlas_index: u32,
    /// Where in that atlas the vertex lies.
    pub uv: [Scalar; 2],
    /// The vertex of the declared mesh that this one stands for.
    pub xref: u32,
}

/// One chart as the engine reports it.
#[derive(Clone, Copy, Debug)]
pub struct ChartRecord<'a> {
    pub atlas_index: u32,
    pub index_array: &'a [u32],
}

/// One generated mesh as the engine reports it.
#[derive(Debug)]
pub struct MeshRecord<'a, T = Vertex> {
    pub chart_array: Vec<ChartRecord<'a>>,
    pub index_array: &'a [u32],
    pub vertex_array: &'a [T],
}

/// A read-only view of one chart.
#[derive(Debug)]
pub struct Chart<'a> {
    /// The atlas that the chart was placed in.
    pub atlas_index: u32,
    /// The indices of the chart's faces within its mesh.
    pub indices: &'a [u32],
}

/// A read-only view of one generated mesh.
#[derive(Debug)]
pub struct Mesh<'a, T = Vertex> {
    pub charts: Vec<Chart<'a>>,
    pub indices: &'a [u32],
    pub vertices: &'a [T],
}

impl<'a> View for ChartRecord<'a> {
    type V = ChartView;

    open spec fn view(&self) -> ChartView {
        ChartView { atlas_index: self.atlas_index, indices: self.index_array@ }
    }
}

impl<'a> View for Chart<'a> {
    type V = ChartView;

    open spec fn view(&self) -> ChartView {
        ChartView { atlas_index: self.atlas_index, indices: self.indices@ }
    }
}

impl<'a, T> View for MeshRecord<'a, T> {
    type V = MeshView<T>;

    open spec fn view(&self) -> MeshView<T> {
        MeshView {
            charts: Seq::new(self.chart_array@.len(), |i: int| self.chart_array@[i]@),
            indices: self.index_array@,
            vertices: self.vertex_array@,
        }
    }
}

impl<'a, T> View for Mesh<'a, T> {
    type V = MeshView<T>;

    open spec fn view(&self) -> MeshView<T> {
        MeshView {
            charts: Seq::new(self.charts@.len(), |i: int| self.charts@[i]@),
            indices: self.indices@,
            vertices: self.vertices@,
        }
    }
}

/// What each of the records reports, in the order of the records.
pub open spec fn reported<'a, T>(records: Seq<MeshRecord<'a, T>>) -> Seq<MeshView<T>> {
    Seq::new(records.len(), |i: int| records[i]@)
}

/// What each of the views shows, in the order of the views.
pub open spec fn shown<'a, T>(views: Seq<Mesh<'a, T>>) -> Seq<MeshView<T>> {
    Seq::new(views.len(), |i: int| views[i]@)
}

impl<'a> Chart<'a> {
    /// The view of the chart that `record` reports.
    pub fn of_record(record: &ChartRecord<'a>) -> (chart: Chart<'a>)
        ensures
            chart@ == record@,
    {
        Chart { atlas_index: record.atlas_index, indices: record.index_array }
    }
}

impl<'a, T> Mesh<'a, T> {
    /// The view of the mesh that `record` reports: the same index and vertex
    /// buffers, and one chart view for each chart record, in the same order.
    pub fn of_record(record: &MeshRecord<'a, T>) -> (mesh: Mesh<'a, T>)
        ensures
            mesh@ == record@,
    {
        let mut charts: Vec<Chart<'a>> = Vec::new();
        let mut i: usize = 0;
        while i < record.chart_array.len()
            invariant
                i <= record.chart_array@.len(),
                charts@.len() == i,
                forall|k: int| 0 <= k < i ==> (#[trigger] charts@[k])@ == record.chart_array@[k]@,
            decreases record.chart_array@.len() - i,
        {
            charts.push(Chart::of_record(&record.chart_array[i]));
            i += 1;
        }
        let mesh = Mesh { charts, indices: record.index_array, vertices: record.vertex_array };
        assert(mesh@.charts =~= record@.charts);
        mesh
    }
}

/// Builds the views of a list of records: one view for each record, in the
/// same order, each showing exactly what its record reports.
pub fn views_of<'a, T>(records: &[MeshRecord<'a, T>]) -> (views: Vec<Mesh<'a, T>>)
    ensures
        shown(views@) == reported(records@),
{
    let mut views: Vec<Mesh<'a, T>> = Vec::new();
    let mut i: usize = 0;
    while i < records.len()
        invariant
            i <= records@.len(),
            views@.len() == i,
            forall|k: int| 0 <= k < i ==> (#[trigger] views@[k])@ == records@[k]@,
        decreases records@.len() - i,
    {
        views.push(Mesh::of_record(&records[i]));
        i += 1;
    }
    assert(shown(views@) =~= reported(records@));
    views
}

} // verus!
