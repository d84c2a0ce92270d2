//! The sample cursor: one decoded chunk and the place up to which it was served.

use vstd::prelude::*;

verus! {

/// The state of a sample cursor as plain values.
pub struct CursorView {
    /// The decoded samples of the current chunk, interleaved by channel.
    pub samples: Seq<i16>,
    /// How many of them have been served.
    pub position: nat,
    /// The length of the chunk whose decoding is awaited, if one is.
    pub awaiting: Option<nat>,
}

impl CursorView {
    /// The cursor's invariant: it never stands beyond its chunk, and holds no
    /// chunk while it awaits one.
    pub open spec fn well_formed(self) -> bool {
        &&& self.position <= self.samples.len()
        &&& self.awaiting is Some ==> self.samples.len() == 0
    }

    /// A cursor that holds nothing and awaits nothing.
    pub open spec fn empty() -> CursorView {
        CursorView { samples: Seq::empty(), position: 0, awaiting: None }
    }

    /// Whether the chunk is used up, or there is none.
    pub open spec fn exhausted(self) -> bool {
        self.position >= self.samples.len()
    }

    /// Serving one sample: the sample at the cursor, which moves on by one; no
    /// sample, and no move, where the chunk is used up.
    pub open spec fn take(self) -> (Option<i16>, CursorView) {
        if self.position < self.samples.len() {
            (
                Some(self.samples[self.position as int]),
                CursorView { position: self.position + 1, ..self },
            )
        } else {
            (None, self)
        }
    }

    /// Dropping the chunk to await one of `len` samples.
    pub open spec fn await_chunk(self, len: nat) -> CursorView {
        CursorView { samples: Seq::empty(), position: 0, awaiting: Some(len) }
    }

    /// Whether `decoded` is the chunk that the cursor awaits.
    pub open spec fn accepts(self, decoded: Option<Seq<i16>>) -> bool {
        &&& self.awaiting is Some
        &&& decoded is Some
        &&& decoded.unwrap().len() == self.awaiting.unwrap()
        &&& decoded.unwrap().len() > 0
    }

    /// Taking the outcome of a decoding. A cursor that awaits nothing ignores
    /// it. An awaited chunk of the length asked for becomes the current chunk
    /// and its first sample is served. Any other outcome leaves the cursor
    /// empty.
    pub open spec fn supply(self, decoded: Option<Seq<i16>>) -> (Option<i16>, CursorView) {
        if self.awaiting is None {
            (None, self)
        } else if self.accepts(decoded) {
            (
                Some(decoded.unwrap()[0]),
                CursorView { samples: decoded.unwrap(), position: 1, awaiting: None },
            )
        } else {
            (None, CursorView::empty())
        }
    }

    /// The cursor after `count` samples have been taken.
    pub open spec fn after_takes(self, count: nat) -> CursorView
        decreases count,
    {
        if count == 0 {
            self
        } else {
            self.after_takes((count - 1) as nat).take().1
        }
    }
}

/// Taking samples from a chunk moves the cursor through it one by one and
/// changes nothing else, as long as samples are left.
pub proof fn lemma_takes_move_on(cursor: CursorView, count: nat)
    requires
        cursor.well_formed(),
        cursor.position + count <= cursor.samples.len(),
    ensures
        cursor.after_takes(count) == (CursorView {
            position: cursor.position + count,
            ..cursor
        }),
        cursor.after_takes(count).well_formed(),
    decreases count,
{
    if count > 0 {
        lemma_takes_move_on(cursor, (count - 1) as nat);
    }
}

/// A chunk that the cursor awaits is served whole, in order and once: its
/// first sample when it is supplied, sample `index` by the take that follows
/// `index - 1` others, and nothing once as many samples have been served as
/// the chunk holds. No sample comes from beyond the chunk.
pub proof fn lemma_chunk_served_whole(cursor: CursorView, chunk: Seq<i16>, index: nat)
    requires
        cursor.well_formed(),
        cursor.accepts(Some(chunk)),
        1 <= index <= chunk.len(),
    ensures
        cursor.supply(Some(chunk)).0 == Some(chunk[0]),
        index < chunk.len() ==> cursor.supply(Some(chunk)).1.after_takes((index - 1) as nat).take().0
            == Some(chunk[index as int]),
        index == chunk.len() ==> cursor.supply(Some(chunk)).1.after_takes(
            (index - 1) as nat,
        ).take().0 is None,
        cursor.supply(Some(chunk)).1.after_takes((index - 1) as nat).samples == chunk,
{
    lemma_takes_move_on(cursor.supply(Some(chunk)).1, (index - 1) as nat);
}

/// Whatever is supplied, a sample that comes back is the first of what was
/// supplied, and what was supplied had the length that was awaited.
pub proof fn lemma_supply_serves_only_awaited(cursor: CursorView, decoded: Option<Seq<i16>>)
    requires
        cursor.well_formed(),
    ensures
        cursor.supply(decoded).1.well_formed(),
        cursor.supply(decoded).0 is Some <==> cursor.accepts(decoded),
        cursor.supply(decoded).0 is None && cursor.awaiting is Some ==> cursor.supply(decoded).1
            == CursorView::empty(),
{
}

/// The decoded samples of one chunk and the place up to which they were served.
#[derive(Debug)]
pub struct SampleCursor {
    buffer: Vec<i16>,
    buffer_pos: usize,
    awaiting: Option<usize>,
}

/// The outcome of a decoding as plain values.
pub open spec fn decoded_view(decoded: Option<Vec<i16>>) -> Option<Seq<i16>> {
    match decoded {
        Some(samples) => Some(samples@),
        None => None,
    }
}

impl View for SampleCursor {
    type V = CursorView;

    closed spec fn view(&self) -> CursorView {
        CursorView {
            samples: self.buffer@,
            position: self.buffer_pos as nat,
            awaiting: match self.awaiting {
                Some(len) => Some(len as nat),
                None => None,
            },
        }
    }
}

impl SampleCursor {
    #[verifier::type_invariant]
    spec fn inv(&self) -> bool {
        self@.well_formed()
    }

    /// A cursor that holds nothing and awaits nothing.
    pub fn new() -> (cursor: Self)
        ensures
            cursor@ == CursorView::empty(),
    {
        SampleCursor { buffer: Vec::new(), buffer_pos: 0, awaiting: None }
    }

    /// Serves the next sample of the chunk, if one is left.
    pub fn take(&mut self) -> (sample: Option<i16>)
        ensures
            old(self)@.well_formed(),
            final(self)@.well_formed(),
            sample == old(self)@.take().0,
            final(self)@ == old(self)@.take().1,
    {
        proof {
            use_type_invariant(&*self);
        }
        if self.buffer_pos < self.buffer.len() {
            let sample = self.buffer[self.buffer_pos];
            self.buffer_pos = self.buffer_pos + 1;
            Some(sample)
        } else {
            None
        }
    }

    /// Drops the chunk and awaits one of `len` samples.
    pub fn await_chunk(&mut self, len: usize)
        ensures
            final(self)@ == old(self)@.await_chunk(len as nat),
            final(self)@.well_formed(),
    {
        *self = SampleCursor { buffer: Vec::new(), buffer_pos: 0, awaiting: Some(len) };
    }

    /// Drops the chunk and whatever is awaited.
    pub fn clear(&mut self)
        ensures
            final(self)@ == CursorView::empty(),
    {
        *self = SampleCursor { buffer: Vec::new(), buffer_pos: 0, awaiting: None };
    }

    /// Takes the outcome of a decoding: the filled buffer, or `None` where the
    /// codec failed.
    pub fn supply(&mut self, decoded: Option<Vec<i16>>) -> (sample: Option<i16>)
        ensures
            old(self)@.well_formed(),
            final(self)@.well_formed(),
            sample == old(self)@.supply(decoded_view(decoded)).0,
            final(self)@ == old(self)@.supply(decoded_view(decoded)).1,
    {
        proof {
            use_type_invariant(&*self);
        }
        let expected = match self.awaiting {
            Some(expected) => expected,
            None => {
                return None;
            },
        };
        match decoded {
            Some(samples) => {
                if samples.len() == expected && expected > 0 {
                    let first = samples[0];
                    *self = SampleCursor { buffer: samples, buffer_pos: 1, awaiting: None };
                    Some(first)
                } else {
                    *self = SampleCursor { buffer: Vec::new(), buffer_pos: 0, awaiting: None };
                    None
                }
            },
            None => {
                *self = SampleCursor { buffer: Vec::new(), buffer_pos: 0, awaiting: None };
                None
            },
        }
    }
}

} // verus!
