use vstd::prelude::*;

verus! {

/// Declares the bus error classification of embedded-hal, carried through unchanged.
#[verifier::external_type_specification]
#[verifier::external_body]
pub struct ExErrorKind(embedded_hal::i2c::ErrorKind);

/// Which bus operation a transaction was.
#[derive(Debug, Clone, Copy, PartialEq, Eq, Structural)]
pub enum Operation {
    /// A plain write.
    Write,
    /// A write followed by a read in one transaction.
    WriteRead,
}

/// One transaction on the bus, as the device saw it.
pub struct Transaction {
    pub op: Operation,
    /// Seven-bit device address.
    pub address: u8,
    /// Bytes written to the device.
    pub sent: Seq<u8>,
    /// Bytes read back (empty for a plain write).
    pub received: Seq<u8>,
    /// What the bus reported.
    pub result: Result<(), embedded_hal::i2c::ErrorKind>,
}

/// Transactions performed on a bus, oldest first.
pub type History = Seq<Transaction>;

/// A two-wire bus that performs blocking transactions.
///
/// `history` is the sequence of transactions the bus has performed; each
/// operation appends exactly one entry saying what was sent, what came back
/// and what the operation returned. `history` exists only for proofs: an
/// implementation outside the verifier never has it called.
pub trait I2cBus {
    spec fn history(&self) -> History;

    /// Writes `bytes` to the device at `address`.
    fn write(&mut self, address: u8, bytes: &[u8]) -> (r: Result<(), embedded_hal::i2c::ErrorKind>)
        ensures
            final(self).history() == old(self).history().push(
                Transaction {
                    op: Operation::Write,
                    address,
                    sent: bytes@,
                    received: Seq::empty(),
                    result: r,
                },
            ),
    ;

    /// Writes `bytes` to the device at `address`, then fills `buffer` from it.
    fn write_read(
        &mut self,
        address: u8,
        bytes: &[u8],
        buffer: &mut [u8],
    ) -> (r: Result<(), embedded_hal::i2c::ErrorKind>)
        ensures
            final(buffer)@.len() == old(buffer)@.len(),
            final(self).history() == old(self).history().push(
                Transaction {
                    op: Operation::WriteRead,
                    address,
                    sent: bytes@,
                    received: final(buffer)@,
                    result: r,
                },
            ),
    ;
}

} // verus!
