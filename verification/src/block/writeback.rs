//! Rolling writeback of a buffered disk image.

use vstd::prelude::*;

verus! {

/// A batch covers at least this much before it is written back early.
pub const MINIMUM_RANGE_BYTES: u64 = 67_108_864;

/// The hard limit is this many times the trigger.
pub const HARD_LIMIT_MULTIPLIER: u64 = 2;

/// The bytes from `start` up to `end`.
#[derive(Clone, Copy, Debug, PartialEq, Eq, Structural)]
pub struct DirtyRange {
    pub start: u64,
    pub end: u64,
}

/// The sum of two numbers, held at the largest one.
pub open spec fn capped_sum(a: u64, b: u64) -> u64 {
    if a + b > u64::MAX {
        u64::MAX
    } else {
        (a + b) as u64
    }
}

impl DirtyRange {
    /// The range names at least one byte, unless it stands at the last offset.
    pub open spec fn wf(self) -> bool {
        self.start <= self.end
    }

    /// The byte is in the range.
    pub open spec fn holds(self, byte: int) -> bool {
        self.start <= byte < self.end
    }

    /// The smallest range that holds both.
    pub open spec fn union(self, other: DirtyRange) -> DirtyRange {
        DirtyRange {
            start: if self.start < other.start {
                self.start
            } else {
                other.start
            },
            end: if self.end > other.end {
                self.end
            } else {
                other.end
            },
        }
    }

    /// The range of a write; an empty write has none.
    pub fn new(offset: u64, length: u64) -> (r: Option<DirtyRange>)
        ensures
            r is None <==> length == 0,
            r matches Some(range) ==> range == (DirtyRange {
                start: offset,
                end: capped_sum(offset, length),
            }),
    {
        if length == 0 {
            return None;
        }
        Some(DirtyRange { start: offset, end: offset.saturating_add(length) })
    }

    /// The smallest range that holds both.
    pub fn merge(self, other: DirtyRange) -> (r: DirtyRange)
        ensures
            r == self.union(other),
    {
        DirtyRange {
            start: if self.start < other.start {
                self.start
            } else {
                other.start
            },
            end: if self.end > other.end {
                self.end
            } else {
                other.end
            },
        }
    }

    /// Bytes in the range.
    pub fn len(self) -> (r: u64)
        ensures
            r == if self.end >= self.start {
                self.end - self.start
            } else {
                0
            },
    {
        self.end.saturating_sub(self.start)
    }
}

/// Merging holds every byte of both ranges, in whichever order they come.
pub proof fn merging_ranges_covers_both(a: DirtyRange, b: DirtyRange, c: DirtyRange, byte: int)
    ensures
        a.holds(byte) || b.holds(byte) ==> a.union(b).holds(byte),
        a.union(b) == b.union(a),
        a.union(b).union(c) == a.union(b.union(c)),
        a.union(a) == a,
{
}

/// Work that a recorded write asks for.
#[derive(Clone, Copy, Debug, PartialEq, Eq, Structural)]
pub enum WritebackAction {
    /// Start writing the range back.
    Advisory(DirtyRange),
    /// Write the range back before another write is taken.
    Drain(DirtyRange),
}

/// What was written since the last batch was started, and since the last drain.
#[derive(Clone, Copy, Debug, PartialEq, Eq, Structural)]
pub struct WritebackWindow {
    pub trigger_bytes: u64,
    pub hard_limit_bytes: u64,
    pub batch_logical_bytes: u64,
    pub batch_range: Option<DirtyRange>,
    pub outstanding_logical_bytes: u64,
    pub outstanding_range: Option<DirtyRange>,
}

/// A range that takes in one more.
pub open spec fn grown(existing: Option<DirtyRange>, range: DirtyRange) -> Option<DirtyRange> {
    match existing {
        None => Some(range),
        Some(existing) => Some(existing.union(range)),
    }
}

/// A range lies inside another.
pub open spec fn inside(inner: Option<DirtyRange>, outer: Option<DirtyRange>) -> bool {
    match (inner, outer) {
        (None, _) => true,
        (Some(_), None) => false,
        (Some(i), Some(o)) => o.start <= i.start && i.end <= o.end,
    }
}

/// Two limits times the trigger, held at the largest number.
pub open spec fn hard_limit(trigger_bytes: u64) -> u64 {
    if trigger_bytes * HARD_LIMIT_MULTIPLIER > u64::MAX {
        u64::MAX
    } else {
        (trigger_bytes * HARD_LIMIT_MULTIPLIER) as u64
    }
}

impl WritebackWindow {
    /// Counters and ranges go together, and the batch is part of what is outstanding.
    pub open spec fn wf(self) -> bool {
        &&& self.hard_limit_bytes == hard_limit(self.trigger_bytes)
        &&& self.outstanding_range is None <==> self.outstanding_logical_bytes == 0
        &&& self.batch_range is None <==> self.batch_logical_bytes == 0
        &&& self.batch_logical_bytes <= self.outstanding_logical_bytes
        &&& inside(self.batch_range, self.outstanding_range)
        &&& self.outstanding_range matches Some(range) ==> range.wf()
        &&& self.batch_range matches Some(range) ==> range.wf()
    }

    /// A window with nothing written.
    pub fn new(trigger_bytes: u64) -> (r: WritebackWindow)
        ensures
            r.wf(),
            r == (WritebackWindow {
                trigger_bytes,
                hard_limit_bytes: hard_limit(trigger_bytes),
                batch_logical_bytes: 0,
                batch_range: None,
                outstanding_logical_bytes: 0,
                outstanding_range: None,
            }),
    {
        WritebackWindow {
            trigger_bytes,
            hard_limit_bytes: match trigger_bytes.checked_mul(HARD_LIMIT_MULTIPLIER) {
                Some(limit) => limit,
                None => u64::MAX,
            },
            batch_logical_bytes: 0,
            batch_range: None,
            outstanding_logical_bytes: 0,
            outstanding_range: None,
        }
    }

    /// The range to drain before a write of `length` bytes.
    pub open spec fn drain_before(self, length: u64) -> Option<DirtyRange> {
        if capped_sum(self.outstanding_logical_bytes, length) > self.hard_limit_bytes {
            self.outstanding_range
        } else {
            None
        }
    }

    /// The range to drain before a write of `length` bytes: all that is outstanding, where the
    /// write would cross the hard limit.
    pub fn prepare_write(&self, length: u64) -> (r: Option<DirtyRange>)
        ensures
            r == self.drain_before(length),
    {
        let projected_bytes: u64 = self.outstanding_logical_bytes.saturating_add(length);
        if projected_bytes > self.hard_limit_bytes {
            self.outstanding_range
        } else {
            None
        }
    }

    /// The window after a write.
    pub open spec fn recorded(self, offset: u64, length: u64) -> WritebackWindow {
        let range = DirtyRange { start: offset, end: capped_sum(offset, length) };
        if length == 0 {
            self
        } else {
            WritebackWindow {
                batch_logical_bytes: capped_sum(self.batch_logical_bytes, length),
                batch_range: grown(self.batch_range, range),
                outstanding_logical_bytes: capped_sum(self.outstanding_logical_bytes, length),
                outstanding_range: grown(self.outstanding_range, range),
                ..self
            }
        }
    }

    /// What a window asks for right after a write.
    pub open spec fn due(self) -> Option<WritebackAction> {
        let outstanding = self.outstanding_range->Some_0;
        let batch = self.batch_range->Some_0;
        if self.outstanding_logical_bytes >= self.hard_limit_bytes {
            Some(WritebackAction::Drain(outstanding))
        } else if self.batch_logical_bytes >= self.trigger_bytes && batch.end - batch.start
            >= MINIMUM_RANGE_BYTES {
            Some(WritebackAction::Advisory(batch))
        } else {
            None
        }
    }

    /// Takes a write into account. An empty one changes nothing.
    pub fn record_write(&mut self, offset: u64, length: u64) -> (r: Option<WritebackAction>)
        requires
            old(self).wf(),
        ensures
            final(self).wf(),
            *final(self) == old(self).recorded(offset, length),
            r == if length == 0 {
                None
            } else {
                final(self).due()
            },
    {
        let range: DirtyRange = match DirtyRange::new(offset, length) {
            None => {
                return None;
            },
            Some(range) => range,
        };
        self.batch_logical_bytes = self.batch_logical_bytes.saturating_add(length);
        let batch_range: DirtyRange = match self.batch_range {
            None => range,
            Some(existing) => existing.merge(range),
        };
        self.batch_range = Some(batch_range);
        self.outstanding_logical_bytes = self.outstanding_logical_bytes.saturating_add(length);
        let outstanding_range: DirtyRange = match self.outstanding_range {
            None => range,
            Some(existing) => existing.merge(range),
        };
        self.outstanding_range = Some(outstanding_range);
        if self.outstanding_logical_bytes >= self.hard_limit_bytes {
            return Some(WritebackAction::Drain(outstanding_range));
        }
        if self.batch_logical_bytes >= self.trigger_bytes && batch_range.len()
            >= MINIMUM_RANGE_BYTES {
            return Some(WritebackAction::Advisory(batch_range));
        }
        None
    }

    /// The window once its batch is being written back.
    pub open spec fn batch_started(self) -> WritebackWindow {
        WritebackWindow { batch_logical_bytes: 0, batch_range: None, ..self }
    }

    /// The window once everything is written back.
    pub open spec fn emptied(self) -> WritebackWindow {
        WritebackWindow {
            batch_logical_bytes: 0,
            batch_range: None,
            outstanding_logical_bytes: 0,
            outstanding_range: None,
            ..self
        }
    }

    /// The batch is being written back.
    pub fn complete_advisory(&mut self)
        requires
            old(self).wf(),
        ensures
            final(self).wf(),
            *final(self) == old(self).batch_started(),
    {
        self.batch_logical_bytes = 0;
        self.batch_range = None;
    }

    /// Everything outstanding was written back.
    pub fn complete_drain(&mut self)
        requires
            old(self).wf(),
        ensures
            final(self).wf(),
            *final(self) == old(self).emptied(),
    {
        self.complete_advisory();
        self.outstanding_logical_bytes = 0;
        self.outstanding_range = None;
    }

    /// The guest's flush wrote everything back.
    pub fn complete_flush(&mut self)
        requires
            old(self).wf(),
        ensures
            final(self).wf(),
            *final(self) == old(self).emptied(),
    {
        self.complete_drain();
    }
}

/// A write of no more than the hard limit that was prepared, with the drain that was asked for,
/// does not take what is outstanding past the hard limit.
pub proof fn prepared_writes_stay_within_the_hard_limit(
    window: WritebackWindow,
    offset: u64,
    length: u64,
)
    requires
        window.wf(),
        length <= window.hard_limit_bytes,
    ensures
        window.drain_before(length) is None ==> window.recorded(
            offset,
            length,
        ).outstanding_logical_bytes <= window.hard_limit_bytes,
        window.emptied().recorded(offset, length).outstanding_logical_bytes
            <= window.hard_limit_bytes,
{
}

/// What is outstanding holds every byte written since the last drain, through any batch that was
/// started in between.
pub proof fn outstanding_range_keeps_every_write(
    window: WritebackWindow,
    offset: u64,
    length: u64,
    byte: int,
)
    requires
        window.wf(),
        0 <= byte < u64::MAX,
        (window.outstanding_range matches Some(range) && range.holds(byte)) || offset <= byte
            < offset + length,
    ensures
        window.recorded(offset, length).outstanding_range matches Some(range) && range.holds(byte),
        window.recorded(offset, length).batch_started().outstanding_range == window.recorded(
            offset,
            length,
        ).outstanding_range,
{
}

/// What a write has to wait for.
#[derive(Clone, Copy, Debug, PartialEq, Eq, Structural)]
pub enum PrepareStep {
    /// The write is larger than the hard limit.
    Refuse,
    /// The range is drained first; `drained` then reports how that went.
    Drain(DirtyRange),
    /// The write may go on.
    Proceed,
}

/// A range that the kernel's interface cannot name.
#[derive(Clone, Copy, Debug, PartialEq, Eq, Structural)]
pub enum RangeError {
    /// The offset is larger than a signed 64-bit number.
    Offset,
    /// The length is larger than a signed 64-bit number.
    Length,
}

/// Rolling writeback and backpressure for one buffered disk image.
pub struct BufferedWritebackController {
    pub window: WritebackWindow,
}

impl BufferedWritebackController {
    /// A controller with nothing written.
    pub fn new(trigger_bytes: u64) -> (r: BufferedWritebackController)
        ensures
            r.window.wf(),
            r.window == (WritebackWindow {
                trigger_bytes,
                hard_limit_bytes: hard_limit(trigger_bytes),
                batch_logical_bytes: 0,
                batch_range: None,
                outstanding_logical_bytes: 0,
                outstanding_range: None,
            }),
    {
        BufferedWritebackController { window: WritebackWindow::new(trigger_bytes) }
    }

    /// The most bytes that may be outstanding.
    pub fn hard_limit_bytes(&self) -> (r: u64)
        ensures
            r == self.window.hard_limit_bytes,
    {
        self.window.hard_limit_bytes
    }

    /// What a write of `length` bytes has to wait for.
    pub fn prepare_write(&self, length: u64) -> (r: PrepareStep)
        ensures
            r == if length > self.window.hard_limit_bytes {
                PrepareStep::Refuse
            } else {
                match self.window.drain_before(length) {
                    Some(range) => PrepareStep::Drain(range),
                    None => PrepareStep::Proceed,
                }
            },
    {
        if length > self.window.hard_limit_bytes {
            return PrepareStep::Refuse;
        }
        match self.window.prepare_write(length) {
            Some(range) => PrepareStep::Drain(range),
            None => PrepareStep::Proceed,
        }
    }

    /// Takes a write into account.
    pub fn record_write(&mut self, offset: u64, length: u64) -> (r: Option<WritebackAction>)
        requires
            old(self).window.wf(),
        ensures
            final(self).window.wf(),
            final(self).window == old(self).window.recorded(offset, length),
            r == if length == 0 {
                None
            } else {
                final(self).window.due()
            },
    {
        self.window.record_write(offset, length)
    }

    /// A batch was handed to the kernel, or could not be: then it is tried again with a later
    /// write.
    pub fn advised(&mut self, started: bool)
        requires
            old(self).window.wf(),
        ensures
            final(self).window.wf(),
            final(self).window == if started {
                old(self).window.batch_started()
            } else {
                old(self).window
            },
    {
        if started {
            self.window.complete_advisory();
        }
    }

    /// A drain ended. One that failed leaves everything outstanding.
    pub fn drained(&mut self, written: bool)
        requires
            old(self).window.wf(),
        ensures
            final(self).window.wf(),
            final(self).window == if written {
                old(self).window.emptied()
            } else {
                old(self).window
            },
    {
        if written {
            self.window.complete_drain();
        }
    }

    /// The guest's flush wrote everything back.
    pub fn complete_flush(&mut self)
        requires
            old(self).window.wf(),
        ensures
            final(self).window.wf(),
            final(self).window == old(self).window.emptied(),
    {
        self.window.complete_flush();
    }
}

/// The signed offset and length that the kernel takes for a range.
pub fn sync_range_arguments(range: DirtyRange) -> (r: Result<(i64, i64), RangeError>)
    requires
        range.wf(),
    ensures
        r is Ok <==> range.start <= i64::MAX && range.end - range.start <= i64::MAX,
        r matches Ok(arguments) ==> arguments.0 == range.start && arguments.1 == range.end
            - range.start,
        r matches Err(error) ==> error == if range.start > i64::MAX {
            RangeError::Offset
        } else {
            RangeError::Length
        },
{
    if range.start > i64::MAX as u64 {
        return Err(RangeError::Offset);
    }
    let length: u64 = range.len();
    if length > i64::MAX as u64 {
        return Err(RangeError::Length);
    }
    Ok((range.start as i64, length as i64))
}

/// A window of writes: it remembers every byte since the last drain, asks for a drain once twice the
/// trigger is reached, and before that for an early start once the trigger and the smallest batch
/// are.
pub proof fn recorded_writes_come_due(
    window: &mut WritebackWindow,
    offset: u64,
    length: u64,
    r: Option<WritebackAction>,
)
    requires
        window.wf(),
        length > 0,
        offset + length <= u64::MAX,
        window.outstanding_logical_bytes + length <= u64::MAX,
        call_ensures(WritebackWindow::record_write, (window, offset, length), r),
    ensures
        final(window).outstanding_logical_bytes == old(window).outstanding_logical_bytes + length,
        final(window).batch_logical_bytes == old(window).batch_logical_bytes + length,
        final(window).outstanding_range is Some,
        final(window).outstanding_range->Some_0.start <= offset,
        final(window).outstanding_range->Some_0.end >= offset + length,
        old(window).outstanding_range is None ==> final(window).outstanding_range == Some(
            DirtyRange { start: offset, end: (offset + length) as u64 },
        ),
        final(window).batch_range is Some && final(window).batch_range->Some_0.start <= offset
            && final(window).batch_range->Some_0.end >= offset + length,
        2 * final(window).trigger_bytes <= u64::MAX && final(window).outstanding_logical_bytes >= 2
            * final(window).trigger_bytes ==> r == Some(
            WritebackAction::Drain(final(window).outstanding_range->Some_0),
        ),
        r matches Some(WritebackAction::Advisory(range))
            ==> final(window).batch_range == Some(range)
            && final(window).batch_logical_bytes >= final(window).trigger_bytes && range.end
            - range.start >= 67108864,
        final(window).outstanding_logical_bytes < 2 * final(window).trigger_bytes
            && final(window).batch_logical_bytes >= final(window).trigger_bytes
            && final(window).batch_range->Some_0.end - final(window).batch_range->Some_0.start >= 67108864 ==> r is Some,
        2 * final(window).trigger_bytes <= u64::MAX
            && final(window).batch_logical_bytes < final(window).trigger_bytes
            && final(window).outstanding_logical_bytes < 2 * final(window).trigger_bytes
            ==> r is None,
        final(window).trigger_bytes == old(window).trigger_bytes,
{
}

/// A window that was drained, or that a flush wrote back, remembers nothing; one whose batch was
/// started still remembers all that is outstanding.
pub proof fn drains_forget_and_batches_do_not(window: &mut WritebackWindow, batch: &mut WritebackWindow)
    requires
        call_ensures(WritebackWindow::complete_flush, (window,), ()),
        call_ensures(WritebackWindow::complete_advisory, (batch,), ()),
    ensures
        final(window).outstanding_range is None && final(window).outstanding_logical_bytes == 0,
        final(window).batch_range is None && final(window).batch_logical_bytes == 0,
        final(window).trigger_bytes == old(window).trigger_bytes,
        final(window).hard_limit_bytes == old(window).hard_limit_bytes,
        final(batch).batch_range is None && final(batch).batch_logical_bytes == 0,
        final(batch).outstanding_range == old(batch).outstanding_range,
        final(batch).outstanding_logical_bytes == old(batch).outstanding_logical_bytes,
{
}

/// A write waits for a drain exactly where it would take what is outstanding past twice the trigger,
/// and the drain is of all that is outstanding.
pub proof fn writes_wait_at_the_hard_limit(
    window: WritebackWindow,
    length: u64,
    r: Option<DirtyRange>,
)
    requires
        window.wf(),
        2 * window.trigger_bytes <= u64::MAX,
        call_ensures(WritebackWindow::prepare_write, (&window, length), r),
    ensures
        r is Some <==> window.outstanding_range is Some && window.outstanding_logical_bytes + length
            > 2 * window.trigger_bytes,
        r is Some ==> r == window.outstanding_range,
{
}

/// A controller refuses a write of more than twice the trigger, and what failed stays outstanding.
pub proof fn controller_keeps_what_failed(
    controller: BufferedWritebackController,
    length: u64,
    step: PrepareStep,
    drained: &mut BufferedWritebackController,
    written: bool,
    advised: &mut BufferedWritebackController,
    started: bool,
)
    requires
        controller.window.wf(),
        2 * controller.window.trigger_bytes <= u64::MAX,
        call_ensures(BufferedWritebackController::prepare_write, (&controller, length), step),
        call_ensures(BufferedWritebackController::drained, (drained, written), ()),
        call_ensures(BufferedWritebackController::advised, (advised, started), ()),
    ensures
        step is Refuse <==> length > 2 * controller.window.trigger_bytes,
        step is Drain ==> controller.window.outstanding_range == Some(step->Drain_0),
        step is Proceed && controller.window.outstanding_range is Some
            ==> controller.window.outstanding_logical_bytes + length <= 2
            * controller.window.trigger_bytes,
        !written ==> final(drained).window == old(drained).window,
        written ==> final(drained).window.outstanding_logical_bytes == 0
            && final(drained).window.outstanding_range is None,
        !started ==> final(advised).window == old(advised).window,
        final(advised).window.outstanding_range == old(advised).window.outstanding_range,
{
}

/// The kernel is given the start and the length of a range.
pub proof fn kernel_gets_the_range(range: DirtyRange, r: Result<(i64, i64), RangeError>)
    requires
        range.wf(),
        call_ensures(sync_range_arguments, (range,), r),
    ensures
        r is Ok ==> r->Ok_0.0 == range.start && r->Ok_0.0 + r->Ok_0.1 == range.end,
        range.end <= i64::MAX ==> r is Ok,
{
}

/// The range of what is outstanding reaches no further than what was written: it starts where it
/// did or where the write does, and ends where it did or where the write does.
pub proof fn recorded_writes_stretch_the_range_no_further(
    window: &mut WritebackWindow,
    offset: u64,
    length: u64,
    r: Option<WritebackAction>,
    a: DirtyRange,
    b: DirtyRange,
    merged: DirtyRange,
)
    requires
        window.wf(),
        length > 0,
        offset + length <= u64::MAX,
        window.outstanding_logical_bytes + length <= u64::MAX,
        call_ensures(WritebackWindow::record_write, (window, offset, length), r),
        call_ensures(DirtyRange::merge, (a, b), merged),
    ensures
        old(window).outstanding_range is Some ==> final(window).outstanding_range is Some && {
            let (before, after) = (
                old(window).outstanding_range->Some_0,
                final(window).outstanding_range->Some_0,
            );
            &&& after.start == before.start || after.start == offset
            &&& after.end == before.end || after.end == offset + length
            &&& after.start <= before.start && after.end >= before.end
        },
        old(window).batch_range is Some ==> final(window).batch_range is Some && {
            let (before, after) = (old(window).batch_range->Some_0, final(window).batch_range->Some_0);
            &&& after.start == before.start || after.start == offset
            &&& after.end == before.end || after.end == offset + length
            &&& after.start <= before.start && after.end >= before.end
        },
        old(window).batch_range is None ==> final(window).batch_range == Some(
            DirtyRange { start: offset, end: (offset + length) as u64 },
        ),
        merged.start <= a.start && merged.start <= b.start && (merged.start == a.start
            || merged.start == b.start),
        merged.end >= a.end && merged.end >= b.end && (merged.end == a.end || merged.end == b.end),
{
}

} // verus!
