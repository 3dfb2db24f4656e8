//! The store of the pipeline's input and output buffers, each under an integer id.
use vstd::prelude::*;
use std::collections::HashMap;
use std::sync::Arc;
use crate::error::FlowError;
use crate::text::{decimal_text, push_decimal_i64};

verus! {

/// Whether a buffer is read from or written to.
#[derive(Copy, Clone, Debug, PartialEq, Eq, Structural)]
pub enum IoDirection {
    In,
    Out,
}

/// The bytes of a buffer: shared input bytes, or the output written so far.
pub enum IoData {
    Input(Arc<[u8]>),
    Output(Vec<u8>),
}

/// A buffer and its direction.
pub struct IoProxy {
    pub direction: IoDirection,
    pub data: IoData,
}

/// The bytes that a buffer holds.
pub open spec fn data_bytes(d: IoData) -> Seq<u8> {
    match d {
        IoData::Input(a) => a@,
        IoData::Output(v) => v@,
    }
}

/// The buffers of the pipeline, each under an integer id.
pub struct IoStore {
    objects: HashMap<i32, IoProxy>,
}

/// What a store holds under an id: the direction, whether it is an input, and its bytes.
pub open spec fn entry_of(p: IoProxy) -> (IoDirection, bool, Seq<u8>) {
    (p.direction, p.data is Input, data_bytes(p.data))
}

impl IoStore {
    /// What the store holds, by id.
    pub closed spec fn entries(&self) -> Map<i32, (IoDirection, bool, Seq<u8>)> {
        self.objects@.map_values(|p: IoProxy| entry_of(p))
    }

    /// An empty store.
    pub fn new() -> (r: IoStore)
        ensures
            r.entries() == Map::<i32, (IoDirection, bool, Seq<u8>)>::empty(),
    {
        let r = IoStore { objects: HashMap::new() };
        proof {
            assert(r.entries() =~= Map::<i32, (IoDirection, bool, Seq<u8>)>::empty());
        }
        r
    }

    /// Adds (or replaces) an input buffer.
    pub fn add_input(&mut self, io_id: i32, data: Arc<[u8]>)
        ensures
            final(self).entries() == old(self).entries().insert(io_id,
                (IoDirection::In, true, data@)),
    {
        proof { broadcast use vstd::std_specs::hash::group_hash_axioms; }
        self.objects.insert(io_id, IoProxy { direction: IoDirection::In, data: IoData::Input(data) });
        proof {
            assert(self.entries() =~= old(self).entries().insert(io_id,
                (IoDirection::In, true, data@)));
        }
    }

    /// Adds (or replaces) an empty output buffer.
    pub fn add_output(&mut self, io_id: i32)
        ensures
            final(self).entries() == old(self).entries().insert(io_id,
                (IoDirection::Out, false, Seq::<u8>::empty())),
    {
        proof { broadcast use vstd::std_specs::hash::group_hash_axioms; }
        self.objects.insert(io_id, IoProxy { direction: IoDirection::Out, data: IoData::Output(Vec::new()) });
        proof {
            assert(self.entries() =~= old(self).entries().insert(io_id,
                (IoDirection::Out, false, Seq::<u8>::empty())));
        }
    }
}

/// The bytes of the input buffer under `id`, if there is one.
pub open spec fn lookup_input(m: Map<i32, (IoDirection, bool, Seq<u8>)>, id: i32) -> Option<Seq<u8>> {
    if m.contains_key(id) && m[id].1 { Some(m[id].2) } else { None }
}

/// The bytes of the output buffer under `id`, if there is one.
pub open spec fn lookup_output(m: Map<i32, (IoDirection, bool, Seq<u8>)>, id: i32) -> Option<Seq<u8>> {
    if m.contains_key(id) && !m[id].1 { Some(m[id].2) } else { None }
}

/// The error for an id that names a buffer of the wrong kind: `"io_id <id> is not an <kind>"`.
pub open spec fn wrong_kind_text(id: i32, kind: Seq<char>) -> Seq<char> {
    "io_id "@ + decimal_text(id as int) + " is not an "@ + kind
}

/// The error for a request on buffer `id` of the kind `want_input` asks for.
pub open spec fn lookup_error(m: Map<i32, (IoDirection, bool, Seq<u8>)>, id: i32, want_input: bool, e: FlowError) -> bool {
    if !m.contains_key(id) {
        e == FlowError::IoNotFound(id)
    } else {
        e matches FlowError::InvalidPipeline(msg)
            && msg@ == wrong_kind_text(id, if want_input { "input"@ } else { "output"@ })
    }
}

fn wrong_kind(id: i32, want_input: bool) -> (e: FlowError)
    ensures
        e matches FlowError::InvalidPipeline(msg)
            && msg@ == wrong_kind_text(id, if want_input { "input"@ } else { "output"@ }),
{
    let mut msg = String::new();
    msg.append("io_id ");
    push_decimal_i64(&mut msg, id as i64);
    msg.append(" is not an ");
    if want_input {
        msg.append("input");
    } else {
        msg.append("output");
    }
    FlowError::InvalidPipeline(msg)
}

impl IoStore {
    /// The bytes of the input buffer under `io_id`. An unknown id is refused with `IoNotFound`,
    /// an output buffer with `InvalidPipeline`.
    pub fn get_input(&self, io_id: i32) -> (r: Result<&[u8], FlowError>)
        ensures
            r matches Ok(s) ==> lookup_input(self.entries(), io_id) == Some(s@),
            r is Err <==> lookup_input(self.entries(), io_id) is None,
            r matches Err(e) ==> lookup_error(self.entries(), io_id, true, e),
    {
        proof { broadcast use vstd::std_specs::hash::group_hash_axioms; }
        match self.objects.get(&io_id) {
            Some(p) => match &p.data {
                IoData::Input(data) => {
                    let s: &[u8] = data;
                    Ok(s)
                },
                IoData::Output(_) => Err(wrong_kind(io_id, true)),
            },
            None => Err(FlowError::IoNotFound(io_id)),
        }
    }

    /// The bytes of the output buffer under `io_id`. An unknown id is refused with `IoNotFound`,
    /// an input buffer with `InvalidPipeline`.
    pub fn get_output(&self, io_id: i32) -> (r: Result<&[u8], FlowError>)
        ensures
            r matches Ok(s) ==> lookup_output(self.entries(), io_id) == Some(s@),
            r is Err <==> lookup_output(self.entries(), io_id) is None,
            r matches Err(e) ==> lookup_error(self.entries(), io_id, false, e),
    {
        proof { broadcast use vstd::std_specs::hash::group_hash_axioms; }
        match self.objects.get(&io_id) {
            Some(p) => match &p.data {
                IoData::Output(buf) => Ok(buf.as_slice()),
                IoData::Input(_) => Err(wrong_kind(io_id, false)),
            },
            None => Err(FlowError::IoNotFound(io_id)),
        }
    }

    /// Replaces the bytes of the output buffer under `io_id` with `data`. An unknown id is
    /// refused with `IoNotFound`, an input buffer with `InvalidPipeline`; nothing changes then.
    pub fn write_output(&mut self, io_id: i32, data: Vec<u8>) -> (r: Result<(), FlowError>)
        ensures
            r is Err <==> lookup_output(old(self).entries(), io_id) is None,
            r matches Err(e) ==> lookup_error(old(self).entries(), io_id, false, e),
            r is Err ==> final(self).entries() == old(self).entries(),
            r is Ok ==> final(self).entries() == old(self).entries().insert(io_id,
                (old(self).entries()[io_id].0, false, data@)),
    {
        proof { broadcast use vstd::std_specs::hash::group_hash_axioms; }
        let found = match self.objects.get(&io_id) {
            Some(p) => match &p.data {
                IoData::Output(_) => Some(Some(p.direction)),
                IoData::Input(_) => Some(None),
            },
            None => None,
        };
        match found {
            Some(Some(direction)) => {
                let ghost d = data@;
                self.objects.insert(io_id, IoProxy { direction, data: IoData::Output(data) });
                proof {
                    assert(self.entries() =~= old(self).entries().insert(io_id,
                        (old(self).entries()[io_id].0, false, d)));
                }
                Ok(())
            },
            Some(None) => Err(wrong_kind(io_id, false)),
            None => Err(FlowError::IoNotFound(io_id)),
        }
    }

    /// Takes the bytes of the output buffer under `io_id`, leaving it empty. An unknown id is
    /// refused with `IoNotFound`, an input buffer with `InvalidPipeline`; nothing changes then.
    pub fn take_output(&mut self, io_id: i32) -> (r: Result<Vec<u8>, FlowError>)
        ensures
            r matches Ok(v) ==> lookup_output(old(self).entries(), io_id) == Some(v@),
            r is Err <==> lookup_output(old(self).entries(), io_id) is None,
            r matches Err(e) ==> lookup_error(old(self).entries(), io_id, false, e),
            r is Err ==> final(self).entries() == old(self).entries(),
            r is Ok ==> final(self).entries() == old(self).entries().insert(io_id,
                (old(self).entries()[io_id].0, false, Seq::<u8>::empty())),
    {
        proof { broadcast use vstd::std_specs::hash::group_hash_axioms; }
        match self.objects.remove(&io_id) {
            Some(p) => {
                let direction = p.direction;
                match p.data {
                    IoData::Output(buf) => {
                        self.objects.insert(io_id, IoProxy { direction, data: IoData::Output(Vec::new()) });
                        proof {
                            assert(self.entries() =~= old(self).entries().insert(io_id,
                                (old(self).entries()[io_id].0, false, Seq::<u8>::empty())));
                        }
                        Ok(buf)
                    },
                    IoData::Input(data) => {
                        self.objects.insert(io_id, IoProxy { direction, data: IoData::Input(data) });
                        proof {
                            assert(self.objects@ =~= old(self).objects@);
                            assert(self.entries() =~= old(self).entries());
                        }
                        Err(wrong_kind(io_id, false))
                    },
                }
            },
            None => Err(FlowError::IoNotFound(io_id)),
        }
    }
}

/// Writing an output buffer and reading it back gives the bytes written; every other buffer
/// reads as before.
pub proof fn lemma_write_then_read(before: Map<i32, (IoDirection, bool, Seq<u8>)>,
    after: Map<i32, (IoDirection, bool, Seq<u8>)>, id: i32, data: Seq<u8>)
    requires
        lookup_output(before, id) is Some,
        after == before.insert(id, (before[id].0, false, data)),
    ensures
        lookup_output(after, id) == Some(data),
        forall|other: i32| other != id ==> #[trigger] lookup_output(after, other) == lookup_output(before, other),
        forall|other: i32| #[trigger] lookup_input(after, other) == lookup_input(before, other),
{
}

/// Taking an output buffer gives the bytes it held and leaves it empty.
pub proof fn lemma_take_empties(before: Map<i32, (IoDirection, bool, Seq<u8>)>,
    after: Map<i32, (IoDirection, bool, Seq<u8>)>, id: i32, taken: Seq<u8>)
    requires
        lookup_output(before, id) == Some(taken),
        after == before.insert(id, (before[id].0, false, Seq::<u8>::empty())),
    ensures
        lookup_output(after, id) == Some(Seq::<u8>::empty()),
        forall|other: i32| other != id ==> #[trigger] lookup_output(after, other) == lookup_output(before, other),
{
}

} // verus!
