use crate::config::{
    CHANNELS, DMX_SIZE, DMX_WIDTH, IMAGE_HEIGHT, IMAGE_WIDTH, MAX_UNIVERSES, UNIVERSE_SIZE,
};
use crate::network::{
    accepted, lemma_accepted_datagrams, output_fields, pending_frames, DmxData, Frame,
    StreamReceiver,
};
use vstd::prelude::*;

verus! {

/// The universe image: one row per universe, one cell per channel, each cell
/// made of `CHANNELS` bytes that all hold the channel's value.
#[derive(Debug, Clone, PartialEq, Eq)]
pub struct DmxImage {
    /// Cells per row.
    pub width: u32,
    /// Rows.
    pub height: u32,
    /// The cells, row after row.
    pub data: Vec<u8>,
}

/// The index in the image's bytes of component `component` of the cell at
/// `column` in the row of `universe`.
pub open spec fn byte_index(universe: int, column: int, component: int) -> int {
    (universe * IMAGE_WIDTH + column) * CHANNELS + component
}

/// Whether byte `k` of the image lies in the row of `universe`.
pub open spec fn in_row(universe: int, k: int) -> bool {
    universe * DMX_WIDTH <= k < (universe + 1) * DMX_WIDTH
}

/// Whether the row of `universe` shows the channel values: every component
/// of the cell at a column holds the value of that column's channel.
pub open spec fn row_shows(data: Seq<u8>, universe: int, channels: Seq<u8>) -> bool {
    forall|column: int, component: int|
        0 <= column < UNIVERSE_SIZE && 0 <= component < CHANNELS ==> data[#[trigger] byte_index(
            universe,
            column,
            component,
        )] == channels[column]
}

/// Whether the row of `universe` is the same before and after.
pub open spec fn row_kept(before: Seq<u8>, after: Seq<u8>, universe: int) -> bool {
    forall|column: int, component: int|
        0 <= column < UNIVERSE_SIZE && 0 <= component < CHANNELS ==> after[#[trigger] byte_index(
            universe,
            column,
            component,
        )] == before[byte_index(universe, column, component)]
}

/// Whether every row but that of `universe` is the same before and after.
pub open spec fn other_rows_kept(before: Seq<u8>, after: Seq<u8>, universe: int) -> bool {
    forall|other: int|
        0 <= other < MAX_UNIVERSES && other != universe ==> #[trigger] row_kept(
            before,
            after,
            other,
        )
}

/// The image bytes after the row of the frame's universe has been
/// overwritten: every byte of that row holds the value of the channel whose
/// cell it belongs to, every other byte is as before.
pub open spec fn written(data: Seq<u8>, frame: Frame) -> Seq<u8> {
    Seq::new(
        data.len(),
        |k: int|
            if in_row(frame.universe as int, k) {
                frame.channels[(k - frame.universe * DMX_WIDTH) / (CHANNELS as int)]
            } else {
                data[k]
            },
    )
}

/// The image bytes after one frame: a valid frame overwrites its row, any
/// other frame is dropped.
pub open spec fn applied(data: Seq<u8>, frame: Frame) -> Seq<u8> {
    if frame.is_valid() {
        written(data, frame)
    } else {
        data
    }
}

/// The image bytes after a run of frames, applied in the order of arrival.
pub open spec fn applied_all(data: Seq<u8>, frames: Seq<Frame>) -> Seq<u8>
    decreases frames.len(),
{
    if frames.len() == 0 {
        data
    } else {
        applied(applied_all(data, frames.drop_last()), frames.last())
    }
}

/// A valid frame that is drained fills its row with its channel values,
/// each replicated over its cell, and touches no other row.
pub proof fn lemma_frame_fills_row(data: Seq<u8>, frame: Frame)
    requires
        data.len() == DMX_SIZE,
        frame.is_valid(),
    ensures
        row_shows(applied_all(data, seq![frame]), frame.universe as int, frame.channels),
        other_rows_kept(data, applied_all(data, seq![frame]), frame.universe as int),
        applied_all(data, seq![frame]).len() == DMX_SIZE,
{
    lemma_single_frame(data, frame);
}

/// The bytes of a row are exactly the bytes of its cells: byte `k` of the
/// row of `universe` is component `k % CHANNELS` of the cell at column
/// `k / CHANNELS`.
pub proof fn lemma_rows_are_cells(universe: int, k: int)
    requires
        0 <= universe < MAX_UNIVERSES,
        0 <= k < DMX_WIDTH,
    ensures
        0 <= k / (CHANNELS as int) < UNIVERSE_SIZE,
        0 <= k % (CHANNELS as int) < CHANNELS,
        byte_index(universe, k / (CHANNELS as int), k % (CHANNELS as int)) == universe * DMX_WIDTH
            + k,
        in_row(universe, universe * DMX_WIDTH + k),
        0 <= universe * DMX_WIDTH + k < DMX_SIZE,
{
}

/// No frame changes the size of the image's storage.
pub proof fn lemma_size_is_kept(data: Seq<u8>, frames: Seq<Frame>)
    ensures
        applied_all(data, frames).len() == data.len(),
    decreases frames.len(),
{
    if frames.len() > 0 {
        lemma_size_is_kept(data, frames.drop_last());
    }
}

/// A frame for a universe without a row, or with a payload that is not one
/// universe long, is dropped: the image is as it was.
pub proof fn lemma_invalid_frame_is_dropped(data: Seq<u8>, frame: Frame)
    requires
        frame.universe >= MAX_UNIVERSES || frame.channels.len() != UNIVERSE_SIZE,
    ensures
        applied(data, frame) == data,
        applied_all(data, seq![frame]) == data,
{
    lemma_single_frame(data, frame);
}

/// Draining one frame is applying it.
pub proof fn lemma_single_frame(data: Seq<u8>, frame: Frame)
    ensures
        applied_all(data, seq![frame]) == applied(data, frame),
{
    let frames = seq![frame];
    assert(frames.drop_last() =~= Seq::<Frame>::empty());
    assert(applied_all(data, frames.drop_last()) == data);
    assert(frames.last() == frame);
}

/// Draining nothing changes nothing.
pub proof fn lemma_empty_drain(data: Seq<u8>)
    ensures
        applied_all(data, Seq::<Frame>::empty()) == data,
{
}

/// Draining one run of frames and then another is draining the two in a row.
pub proof fn lemma_drains_compose(data: Seq<u8>, first: Seq<Frame>, second: Seq<Frame>)
    ensures
        applied_all(applied_all(data, first), second) == applied_all(data, first + second),
    decreases second.len(),
{
    if second.len() == 0 {
        assert(first + second =~= first);
    } else {
        lemma_drains_compose(data, first, second.drop_last());
        assert((first + second).drop_last() =~= first + second.drop_last());
        assert((first + second).last() == second.last());
    }
}

/// The last write wins: of two valid frames for one universe that are
/// drained one after the other, only the later one shows.
pub proof fn lemma_last_write_wins(data: Seq<u8>, earlier: Frame, later: Frame)
    requires
        earlier.is_valid(),
        later.is_valid(),
        earlier.universe == later.universe,
    ensures
        applied(applied(data, earlier), later) == applied(data, later),
        applied_all(data, seq![earlier, later]) == applied(data, later),
{
    assert(applied(applied(data, earlier), later) =~= applied(data, later));
    let frames = seq![earlier, later];
    assert(frames.drop_last() =~= seq![earlier]);
    assert(frames.last() == later);
    lemma_single_frame(data, earlier);
}

/// From the wire to the image: once the frame of an accepted datagram is
/// drained, the row of the datagram's universe shows the datagram's payload
/// and every other row is as it was.
pub proof fn lemma_datagram_reaches_image(data: Seq<u8>, bytes: Seq<u8>)
    requires
        data.len() == DMX_SIZE,
        accepted(bytes) is Ok,
    ensures
        row_shows(
            applied_all(data, seq![accepted(bytes)->Ok_0]),
            output_fields(bytes).port_address as int,
            bytes.subrange(18, bytes.len() as int),
        ),
        other_rows_kept(
            data,
            applied_all(data, seq![accepted(bytes)->Ok_0]),
            output_fields(bytes).port_address as int,
        ),
{
    lemma_accepted_datagrams(bytes);
    lemma_frame_fills_row(data, accepted(bytes)->Ok_0);
}

/// The mathematical content of a run of frames.
pub open spec fn frames_of(frames: Seq<DmxData>) -> Seq<Frame> {
    frames.map_values(|frame: DmxData| frame@)
}

impl DmxImage {
    /// The image has its fixed dimensions and the storage that goes with
    /// them.
    pub open spec fn wf(&self) -> bool {
        &&& self.width == IMAGE_WIDTH
        &&& self.height == IMAGE_HEIGHT
        &&& self.data@.len() == DMX_SIZE
    }

    /// Whether the image has its fixed dimensions and storage, for callers
    /// that have to find out at run time.
    pub fn has_fixed_size(&self) -> (fixed: bool)
        ensures
            fixed == self.wf(),
    {
        self.width as usize == IMAGE_WIDTH && self.height as usize == IMAGE_HEIGHT
            && self.data.len() == DMX_SIZE
    }

    /// The components of the cell at `column` in the row of `universe`.
    pub fn cell(&self, universe: usize, column: usize) -> (components: [u8; 4])
        requires
            self.wf(),
            universe < MAX_UNIVERSES,
            column < UNIVERSE_SIZE,
        ensures
            forall|component: int|
                0 <= component < CHANNELS ==> components@[component] == self.data@[byte_index(
                    universe as int,
                    column as int,
                    component,
                )],
    {
        let first: usize = (universe * IMAGE_WIDTH + column) * CHANNELS;
        [self.data[first], self.data[first + 1], self.data[first + 2], self.data[first + 3]]
    }

    /// Overwrites the row of the frame's universe with the frame's channel
    /// values, each replicated over the components of its cell. A frame that
    /// is not valid leaves the image as it is.
    pub fn write_universe(&mut self, frame: &DmxData)
        requires
            old(self).wf(),
        ensures
            final(self).wf(),
            final(self).data@ == applied(old(self).data@, frame@),
            !frame@.is_valid() ==> final(self).data@ == old(self).data@,
            frame@.is_valid() ==> row_shows(final(self).data@, frame.universe as int, frame.data@),
            frame@.is_valid() ==> other_rows_kept(
                old(self).data@,
                final(self).data@,
                frame.universe as int,
            ),
    {
        if !frame.is_valid() {
            return ;
        }
        let base: usize = frame.universe as usize * DMX_WIDTH;
        let mut column: usize = 0;
        while column < UNIVERSE_SIZE
            invariant
                column <= UNIVERSE_SIZE,
                frame@.is_valid(),
                base == frame.universe * DMX_WIDTH,
                self.width == old(self).width,
                self.height == old(self).height,
                self.data@.len() == DMX_SIZE,
                old(self).data@.len() == DMX_SIZE,
                forall|k: int|
                    0 <= k < DMX_SIZE && !(base <= k < base + column * CHANNELS)
                        ==> self.data@[k] == old(self).data@[k],
                forall|k: int|
                    base <= k < base + column * CHANNELS ==> self.data@[k] == frame.data@[(k
                        - base) / (CHANNELS as int)],
            decreases UNIVERSE_SIZE - column,
        {
            let value: u8 = frame.data[column];
            let first: usize = base + column * CHANNELS;
            self.data.set(first, value);
            self.data.set(first + 1, value);
            self.data.set(first + 2, value);
            self.data.set(first + 3, value);
            column += 1;
        }
        assert(self.data@ =~= applied(old(self).data@, frame@));
        proof {
            lemma_frame_fills_row(old(self).data@, frame@);
            lemma_single_frame(old(self).data@, frame@);
        }
    }

    /// Applies a run of frames in order; where several address one universe,
    /// the last of them is what the row holds afterwards.
    pub fn apply_frames(&mut self, frames: &Vec<DmxData>)
        requires
            old(self).wf(),
        ensures
            final(self).wf(),
            final(self).data@ == applied_all(old(self).data@, frames_of(frames@)),
    {
        let mut i: usize = 0;
        while i < frames.len()
            invariant
                i <= frames.len(),
                self.wf(),
                self.data@ == applied_all(old(self).data@, frames_of(frames@).take(i as int)),
            decreases frames.len() - i,
        {
            self.write_universe(&frames[i]);
            proof {
                let model = frames_of(frames@);
                assert(model.take(i + 1).drop_last() =~= model.take(i as int));
                assert(model.take(i + 1).last() == frames@[i as int]@);
            }
            i += 1;
        }
        assert(frames_of(frames@).take(i as int) =~= frames_of(frames@));
    }
}

/// A fresh image: the fixed dimensions, every byte zero.
pub fn generate_dmx_image() -> (image: DmxImage)
    ensures
        image.wf(),
        forall|k: int| 0 <= k < DMX_SIZE ==> image.data@[k] == 0,
{
    DmxImage { width: IMAGE_WIDTH as u32, height: IMAGE_HEIGHT as u32, data: vec![0u8; DMX_SIZE] }
}

/// Drains the frames that are queued right now into the image, in the order
/// they arrived. Which frames those are is up to the sending side; whatever
/// they are, the image afterwards is what applying them in order gives.
pub fn update_shader(image: &mut DmxImage, receiver: &StreamReceiver)
    requires
        old(image).wf(),
    ensures
        final(image).wf(),
        exists|frames: Seq<Frame>| final(image).data@ == applied_all(old(image).data@, frames),
{
    let frames = pending_frames(&receiver.0);
    image.apply_frames(&frames);
}

} // verus!
