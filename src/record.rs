use vstd::prelude::*;

use crate::error::HelperError;
use crate::port_text::{classify_port_text, decimal, lemma_decimal_reads_back, port_text, PortText};

verus! {

/// What a port record's contents say: `None` when blank, the port when it holds one.
pub open spec fn record_port(contents: Seq<u8>) -> Result<Option<u16>, HelperError> {
    match port_text(contents) {
        PortText::Blank => Ok(None),
        PortText::Port(p) => Ok(Some(p)),
        PortText::Malformed => Err(HelperError::PersistReadCorrupt),
    }
}

/// Reads the contents of a port record.
pub fn decode_record(contents: &[u8]) -> (r: Result<Option<u16>, HelperError>)
    ensures
        r == record_port(contents@),
{
    match classify_port_text(contents) {
        PortText::Blank => Ok(None),
        PortText::Port(p) => Ok(Some(p)),
        PortText::Malformed => Err(HelperError::PersistReadCorrupt),
    }
}

/// Loading a record right after storing a port gives that port back, as a number.
pub proof fn lemma_load_after_store(port: u16)
    ensures
        record_port(decimal(port as nat)) == Ok::<Option<u16>, HelperError>(Some(port)),
{
    lemma_decimal_reads_back(port as nat);
}

} // verus!
