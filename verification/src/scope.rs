//! The rows of enclosing queries that a subquery can refer to.
use crate::datatype::{DataType, DataTypeView};
use crate::schema;
use crate::schema::{Schema, SchemaView};
use vstd::prelude::*;

verus! {

/// The row of one enclosing query.
#[derive(Debug, PartialEq)]
pub struct ScopeFrame {
    pub schema: Schema,
    pub qualifier: Option<String>,
}

/// The model of a [`ScopeFrame`].
pub struct ScopeFrameView {
    pub schema: SchemaView,
    pub qualifier: Option<Seq<char>>,
}

impl ScopeFrame {
    pub open spec fn view(&self) -> ScopeFrameView {
        ScopeFrameView {
            schema: self.schema@,
            qualifier: match self.qualifier {
                Some(q) => Some(q@),
                None => None,
            },
        }
    }
}

/// The enclosing queries, outermost first.
#[derive(Debug, PartialEq)]
pub struct ScopeStack {
    pub frames: Vec<ScopeFrame>,
}

/// A column of an enclosing query. Depth one is the innermost enclosing query.
#[derive(Debug, PartialEq)]
pub struct OuterRef {
    pub frame_depth: usize,
    pub column_index: usize,
    pub data_type: DataType,
}

/// The model of an [`OuterRef`].
pub struct OuterRefView {
    pub frame_depth: usize,
    pub column_index: usize,
    pub data_type: DataTypeView,
}

impl OuterRef {
    pub open spec fn view(&self) -> OuterRefView {
        OuterRefView {
            frame_depth: self.frame_depth,
            column_index: self.column_index,
            data_type: self.data_type@,
        }
    }
}

/// The column that a name refers to, past the innermost `skipped` queries: the
/// first match in the innermost query that has one.
pub open spec fn resolve_past(frames: Seq<SchemaView>, name: Seq<char>, skipped: int) -> Option<
    OuterRefView,
>
    decreases frames.len() - skipped,
{
    if skipped < 0 || skipped >= frames.len() {
        None
    } else {
        let frame = frames[frames.len() - 1 - skipped];
        match schema::find_field(frame, name) {
            Some(i) => Some(
                OuterRefView {
                    frame_depth: (skipped + 1) as usize,
                    column_index: i as usize,
                    data_type: frame.fields[i].data_type,
                },
            ),
            None => resolve_past(frames, name, skipped + 1),
        }
    }
}

/// The column of an enclosing query that a name refers to.
pub open spec fn resolve_outer(frames: Seq<SchemaView>, name: Seq<char>) -> Option<OuterRefView> {
    resolve_past(frames, name, 0)
}

/// The models of enclosing queries.
pub open spec fn frames_view(frames: Seq<ScopeFrame>) -> Seq<ScopeFrameView> {
    Seq::new(frames.len(), |i: int| frames[i]@)
}

/// The rows of enclosing queries.
pub open spec fn rows_of(frames: Seq<ScopeFrame>) -> Seq<SchemaView> {
    Seq::new(frames.len(), |i: int| frames[i].schema@)
}

impl ScopeStack {
    pub open spec fn view(&self) -> Seq<ScopeFrameView> {
        frames_view(self.frames@)
    }

    /// The rows of the enclosing queries, outermost first. Names are resolved in
    /// these alone.
    pub open spec fn rows(&self) -> Seq<SchemaView> {
        rows_of(self.frames@)
    }

    /// No enclosing query.
    pub fn new() -> (s: ScopeStack)
        ensures
            s.frames@ == Seq::<ScopeFrame>::empty(),
            s.rows() == Seq::<SchemaView>::empty(),
    {
        let s = ScopeStack { frames: Vec::new() };
        assert(s.rows() =~= Seq::<SchemaView>::empty());
        s
    }

    /// Enters a query whose row is `frame`.
    pub fn push(&mut self, frame: ScopeFrame)
        ensures
            final(self).frames@ == old(self).frames@.push(frame),
            final(self)@ == old(self)@.push(frame@),
            final(self).rows() == old(self).rows().push(frame.schema@),
    {
        self.frames.push(frame);
        assert(self@ =~= old(self)@.push(frame@));
        assert(self.rows() =~= old(self).rows().push(frame.schema@));
    }

    /// Leaves the innermost query.
    pub fn pop(&mut self)
        requires
            old(self).rows().len() > 0,
        ensures
            final(self).frames@ == old(self).frames@.drop_last(),
            final(self)@ == old(self)@.drop_last(),
            final(self).rows() == old(self).rows().drop_last(),
    {
        let _ = self.frames.pop();
        assert(self@ =~= old(self)@.drop_last());
        assert(self.rows() =~= old(self).rows().drop_last());
    }

    /// The column of an enclosing query that a name refers to.
    pub fn resolve(&self, name: &str) -> (found: Option<OuterRef>)
        ensures
            (match found {
                Some(r) => Some(r@),
                None => None,
            }) == resolve_outer(self.rows(), name@),
    {
        let mut skipped: usize = 0;
        while skipped < self.frames.len()
            invariant
                skipped <= self.frames.len(),
                resolve_past(self.rows(), name@, skipped as int) == resolve_outer(self.rows(), name@),
            decreases self.frames.len() - skipped,
        {
            let at: usize = self.frames.len() - 1 - skipped;
            let frame = &self.frames[at].schema;
            assert(frame@ == self.rows()[self.rows().len() - 1 - skipped]);
            if let Some(i) = frame.find(name) {
                return Some(
                    OuterRef {
                        frame_depth: skipped + 1,
                        column_index: i,
                        data_type: frame.field_at(i).data_type.duplicate(),
                    },
                );
            }
            skipped = skipped + 1;
        }
        None
    }
}

} // verus!
