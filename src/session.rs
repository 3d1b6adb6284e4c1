use vstd::prelude::*;

use crate::error::HelperError;
use crate::launch::{announced_port, decode_announcement};
use crate::port_text::{decimal, port_text, PortText};
use crate::record::{decode_record, lemma_load_after_store, record_port};

verus! {

/// How long a probe waits for the server to accept the connection.
pub const PROBE_TIMEOUT_MS: u64 = 1;

/// How long a newly started server has to announce its port.
pub const ANNOUNCEMENT_DEADLINE_MS: u64 = 30000;

/// Where one invocation stands. Each phase but the last three names the
/// outside step that the driver performs next and answers with an [`Event`].
#[derive(Clone, Copy, Debug, PartialEq, Eq, Structural)]
pub enum Phase {
    /// Test that the work item exists on disk.
    CheckWorkItem,
    /// Read the port record; a missing record is reported as no contents.
    LoadRecord,
    /// Connect to the server on this loopback port and send it the handoff line.
    Probe { port: u16 },
    /// Locate the server executable and test that it exists on disk.
    Locate,
    /// Start the server with the server flag and the work item's path.
    Spawn,
    /// Read the next chunk of the server's standard output, unless
    /// `ANNOUNCEMENT_DEADLINE_MS` have passed since the server was started.
    ReadAnnouncement,
    /// Write this port to the port record.
    StorePort { port: u16 },
    /// Done: a running server received the work item.
    Delivered,
    /// Done: a new server was started on the work item and its port recorded.
    Launched,
    /// Done: the invocation failed.
    Failed { error: HelperError },
}

/// The result of the outside step that a [`Phase`] asked for.
#[derive(Debug)]
pub enum Event {
    WorkItemChecked { exists: bool },
    /// `None` when there is no record file.
    RecordRead { contents: Option<Vec<u8>> },
    Probed { delivered: bool },
    /// `found` holds when an executable was located and exists on disk.
    Located { found: bool },
    Spawned { ok: bool },
    /// `None` when reading failed; an empty chunk when the output was closed.
    ChunkRead { chunk: Option<Vec<u8>> },
    /// The server did not announce a port before the deadline.
    DeadlinePassed,
    Stored { ok: bool },
}

pub open spec fn is_done(p: Phase) -> bool {
    p is Delivered || p is Launched || p is Failed
}

/// The invocation has left the probing steps behind: it is launching a
/// server or has ended.
pub open spec fn past_probing(p: Phase) -> bool {
    !(p is CheckWorkItem || p is LoadRecord || p is Probe)
}

/// A stored port is worth probing only when it is positive.
pub open spec fn after_record(contents: Option<Vec<u8>>) -> Phase {
    match contents {
        None => Phase::Locate,
        Some(c) => match record_port(c@) {
            Ok(Some(port)) => if port > 0 {
                Phase::Probe { port }
            } else {
                Phase::Locate
            },
            Ok(None) => Phase::Locate,
            Err(error) => Phase::Failed { error },
        },
    }
}

pub open spec fn after_chunk(chunk: Option<Vec<u8>>) -> Phase {
    match chunk {
        None => Phase::Failed { error: HelperError::AnnouncementUnreadable },
        Some(c) => if c@.len() == 0 {
            Phase::Failed { error: HelperError::AnnouncementUnreadable }
        } else {
            match announced_port(c@) {
                Ok(None) => Phase::ReadAnnouncement,
                Ok(Some(port)) => Phase::StorePort { port },
                Err(error) => Phase::Failed { error },
            }
        },
    }
}

/// The phase that follows `p` once `e` has happened. An event that does not
/// answer the phase's step leaves the phase as it is.
pub open spec fn next_phase(p: Phase, e: Event) -> Phase {
    match p {
        Phase::CheckWorkItem => match e {
            Event::WorkItemChecked { exists } => if exists {
                Phase::LoadRecord
            } else {
                Phase::Failed { error: HelperError::InvalidInput }
            },
            _ => p,
        },
        Phase::LoadRecord => match e {
            Event::RecordRead { contents } => after_record(contents),
            _ => p,
        },
        Phase::Probe { .. } => match e {
            Event::Probed { delivered } => if delivered {
                Phase::Delivered
            } else {
                Phase::Locate
            },
            _ => p,
        },
        Phase::Locate => match e {
            Event::Located { found } => if found {
                Phase::Spawn
            } else {
                Phase::Failed { error: HelperError::ExecutableNotFound }
            },
            _ => p,
        },
        Phase::Spawn => match e {
            Event::Spawned { ok } => if ok {
                Phase::ReadAnnouncement
            } else {
                Phase::Failed { error: HelperError::SpawnFailed }
            },
            _ => p,
        },
        Phase::ReadAnnouncement => match e {
            Event::ChunkRead { chunk } => after_chunk(chunk),
            Event::DeadlinePassed => Phase::Failed { error: HelperError::AnnouncementTimeout },
            _ => p,
        },
        Phase::StorePort { .. } => match e {
            Event::Stored { ok } => if ok {
                Phase::Launched
            } else {
                Phase::Failed { error: HelperError::PersistWriteFailed }
            },
            _ => p,
        },
        _ => p,
    }
}

impl Phase {
    /// Whether the invocation has ended, well or not.
    pub fn is_done(&self) -> (r: bool)
        ensures
            r == is_done(*self),
    {
        match self {
            Phase::Delivered | Phase::Launched | Phase::Failed { .. } => true,
            _ => false,
        }
    }
}

fn phase_after_record(contents: &Option<Vec<u8>>) -> (r: Phase)
    ensures
        r == after_record(*contents),
{
    match contents {
        None => Phase::Locate,
        Some(c) => match decode_record(c.as_slice()) {
            Ok(Some(port)) => if port > 0 {
                Phase::Probe { port }
            } else {
                Phase::Locate
            },
            Ok(None) => Phase::Locate,
            Err(error) => Phase::Failed { error },
        },
    }
}

fn phase_after_chunk(chunk: &Option<Vec<u8>>) -> (r: Phase)
    ensures
        r == after_chunk(*chunk),
{
    match chunk {
        None => Phase::Failed { error: HelperError::AnnouncementUnreadable },
        Some(c) => if c.len() == 0 {
            Phase::Failed { error: HelperError::AnnouncementUnreadable }
        } else {
            match decode_announcement(c.as_slice()) {
                Ok(None) => Phase::ReadAnnouncement,
                Ok(Some(port)) => Phase::StorePort { port },
                Err(error) => Phase::Failed { error },
            }
        },
    }
}

/// Takes one invocation a step further.
pub fn advance(phase: Phase, event: &Event) -> (r: Phase)
    ensures
        r == next_phase(phase, *event),
{
    match phase {
        Phase::CheckWorkItem => match event {
            Event::WorkItemChecked { exists } => if *exists {
                Phase::LoadRecord
            } else {
                Phase::Failed { error: HelperError::InvalidInput }
            },
            _ => phase,
        },
        Phase::LoadRecord => match event {
            Event::RecordRead { contents } => phase_after_record(contents),
            _ => phase,
        },
        Phase::Probe { .. } => match event {
            Event::Probed { delivered } => if *delivered {
                Phase::Delivered
            } else {
                Phase::Locate
            },
            _ => phase,
        },
        Phase::Locate => match event {
            Event::Located { found } => if *found {
                Phase::Spawn
            } else {
                Phase::Failed { error: HelperError::ExecutableNotFound }
            },
            _ => phase,
        },
        Phase::Spawn => match event {
            Event::Spawned { ok } => if *ok {
                Phase::ReadAnnouncement
            } else {
                Phase::Failed { error: HelperError::SpawnFailed }
            },
            _ => phase,
        },
        Phase::ReadAnnouncement => match event {
            Event::ChunkRead { chunk } => phase_after_chunk(chunk),
            Event::DeadlinePassed => Phase::Failed { error: HelperError::AnnouncementTimeout },
            _ => phase,
        },
        Phase::StorePort { .. } => match event {
            Event::Stored { ok } => if *ok {
                Phase::Launched
            } else {
                Phase::Failed { error: HelperError::PersistWriteFailed }
            },
            _ => phase,
        },
        _ => phase,
    }
}

/// With no port record, or one that holds only whitespace, the invocation
/// goes straight to launching a server.
pub proof fn lemma_no_record_goes_to_launch(contents: Option<Vec<u8>>)
    requires
        contents is None || port_text(contents->Some_0@) == PortText::Blank,
    ensures
        next_phase(Phase::LoadRecord, (Event::RecordRead { contents })) == Phase::Locate,
{
}

/// Once launching has begun, no event brings the invocation back to a probe.
pub proof fn lemma_launch_never_probes(p: Phase, e: Event)
    requires
        past_probing(p),
    ensures
        past_probing(next_phase(p, e)),
{
}

/// A positive port that a launch stored is the port that the next
/// invocation probes.
pub proof fn lemma_stored_port_is_probed_next(port: u16, contents: Vec<u8>)
    requires
        port > 0,
        contents@ == decimal(port as nat),
    ensures
        next_phase(Phase::LoadRecord, (Event::RecordRead { contents: Some(contents) })) == (
        Phase::Probe { port }),
{
    lemma_load_after_store(port);
}

} // verus!
