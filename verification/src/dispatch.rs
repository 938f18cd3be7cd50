use crate::buffer::MappingOutcome;
use crate::stats::ZeroStats;
use crate::status::Completion;
use crate::status::DriverError;
use crate::zero::control_spec;
use crate::zero::read_spec;
use crate::zero::write_spec;
use crate::zero::zero_create_close;
use crate::zero::zero_device_control;
use crate::zero::zero_read;
use crate::zero::zero_write;
use vstd::prelude::*;

verus! {

/// The request categories the platform dispatches on.
#[derive(Clone, Copy, PartialEq, Eq, Structural, Debug)]
pub enum MajorFunction {
    Create,
    Close,
    Read,
    Write,
    DeviceControl,
}

/// The handlers a device can register. Which one a write request gets
/// decides the device's personality: the zero-fill device discards and
/// counts, the booster device interprets a priority-change record —
/// never both.
#[derive(Clone, Copy, PartialEq, Eq, Structural, Debug)]
pub enum HandlerKind {
    CreateClose,
    ZeroRead,
    DiscardWrite,
    StatsControl,
    PriorityWrite,
}

/// One inbound request, as the dispatcher sees it after the platform
/// has routed it: the operation kind and its validated-to-be-plain
/// parameters. The caller's buffer itself stays behind the buffer
/// access layer.
#[derive(Clone, Copy, PartialEq, Eq, Structural, Debug)]
pub enum Request {
    Create,
    Close,
    Read { length: u32 },
    Write { length: u32 },
    DeviceControl { code: u32, output_length: u32 },
}

/// A device's dispatch table: one optional handler per request
/// category, immutable once the device exists. A missing entry means
/// the platform completes the request as unsupported before it ever
/// reaches a handler.
#[derive(Clone, Copy, PartialEq, Eq, Debug)]
pub struct DispatchTable {
    pub create: Option<HandlerKind>,
    pub close: Option<HandlerKind>,
    pub read: Option<HandlerKind>,
    pub write: Option<HandlerKind>,
    pub device_control: Option<HandlerKind>,
}

/// The entry a table holds for an operation kind.
pub open spec fn entry_spec(table: DispatchTable, op: MajorFunction) -> Option<HandlerKind> {
    match op {
        MajorFunction::Create => table.create,
        MajorFunction::Close => table.close,
        MajorFunction::Read => table.read,
        MajorFunction::Write => table.write,
        MajorFunction::DeviceControl => table.device_control,
    }
}

/// The table of the zero-fill device: every category registered.
pub open spec fn zero_table_spec() -> DispatchTable {
    DispatchTable {
        create: Some(HandlerKind::CreateClose),
        close: Some(HandlerKind::CreateClose),
        read: Some(HandlerKind::ZeroRead),
        write: Some(HandlerKind::DiscardWrite),
        device_control: Some(HandlerKind::StatsControl),
    }
}

/// The table of the booster device: create, close and the
/// record-carrying write path only.
pub open spec fn booster_table_spec() -> DispatchTable {
    DispatchTable {
        create: Some(HandlerKind::CreateClose),
        close: Some(HandlerKind::CreateClose),
        read: None,
        write: Some(HandlerKind::PriorityWrite),
        device_control: None,
    }
}

impl DispatchTable {
    /// Routes an operation kind to its registered handler, if any.
    pub fn route(&self, op: MajorFunction) -> (handler: Option<HandlerKind>)
        ensures
            handler == entry_spec(*self, op),
    {
        match op {
            MajorFunction::Create => self.create,
            MajorFunction::Close => self.close,
            MajorFunction::Read => self.read,
            MajorFunction::Write => self.write,
            MajorFunction::DeviceControl => self.device_control,
        }
    }

    /// The fixed completion for an operation no handler is registered
    /// for: unsupported, zero bytes.
    pub fn unsupported() -> (c: Completion)
        ensures
            c == Completion::failure_spec(DriverError::UnsupportedRequest),
    {
        Completion::failure(DriverError::UnsupportedRequest)
    }

    /// The zero-fill device registers every category.
    pub fn zero_device() -> (t: DispatchTable)
        ensures
            t == zero_table_spec(),
    {
        DispatchTable {
            create: Some(HandlerKind::CreateClose),
            close: Some(HandlerKind::CreateClose),
            read: Some(HandlerKind::ZeroRead),
            write: Some(HandlerKind::DiscardWrite),
            device_control: Some(HandlerKind::StatsControl),
        }
    }

    /// The booster device registers create, close and its
    /// record-carrying write path only.
    pub fn booster_device() -> (t: DispatchTable)
        ensures
            t == booster_table_spec(),
    {
        DispatchTable {
            create: Some(HandlerKind::CreateClose),
            close: Some(HandlerKind::CreateClose),
            read: None,
            write: Some(HandlerKind::PriorityWrite),
            device_control: None,
        }
    }
}

/// What one request does to the zero-fill device as a whole: the
/// counters after it, the completion reported, and the bytes handed
/// back to the caller.
pub open spec fn zero_engine_spec(
    stats: ZeroStats,
    request: Request,
    mapping: MappingOutcome,
) -> (ZeroStats, Completion, Seq<u8>) {
    match request {
        Request::Create => (stats, Completion::success_spec(0), Seq::<u8>::empty()),
        Request::Close => (stats, Completion::success_spec(0), Seq::<u8>::empty()),
        Request::Read { length } => read_spec(stats, length, mapping),
        Request::Write { length } => {
            let (after, completion) = write_spec(stats, length);
            (after, completion, Seq::<u8>::empty())
        },
        Request::DeviceControl { code, output_length } => control_spec(
            stats,
            code,
            output_length,
        ),
    }
}

/// The zero-fill device: its dispatch table and the statistics shared
/// by all of its concurrent requests.
pub struct ZeroDevice {
    pub table: DispatchTable,
    pub stats: ZeroStats,
}

impl ZeroDevice {
    /// A fresh device: full table, counters at zero.
    pub fn new() -> (d: ZeroDevice)
        ensures
            d.table == zero_table_spec(),
            d.stats.total_read == 0,
            d.stats.total_written == 0,
    {
        ZeroDevice { table: DispatchTable::zero_device(), stats: ZeroStats::new() }
    }

    /// Dispatches one request to its handler and completes it.
    /// `mapping` is how resolving the caller's buffer went; it matters
    /// only to the read path.
    pub fn handle_request(&mut self, request: Request, mapping: MappingOutcome) -> (r: (
        Completion,
        Vec<u8>,
    ))
        ensures
            (final(self).stats, r.0, r.1@) == zero_engine_spec(old(self).stats, request, mapping),
            final(self).table == old(self).table,
    {
        match request {
            Request::Create => (zero_create_close(), Vec::new()),
            Request::Close => (zero_create_close(), Vec::new()),
            Request::Read { length } => zero_read(&mut self.stats, length, mapping),
            Request::Write { length } => {
                let completion = zero_write(&mut self.stats, length);
                (completion, Vec::new())
            },
            Request::DeviceControl { code, output_length } => zero_device_control(
                &mut self.stats,
                code,
                output_length,
            ),
        }
    }
}

} // verus!
