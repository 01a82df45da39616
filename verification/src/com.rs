//! The transaction layer: turns logical register reads and writes into
//! combined write-then-read bus operations.
//!
//! A [`Com`] owns the device's fixed 7-bit bus address and, per logical
//! operation, produces one [`BusOperation`]: the exact bytes of the write
//! phase and the length of the read phase, coupled into a single value so
//! that the transport performs both phases as one indivisible bus
//! transaction.  Performing the operation — acquiring the bus, be it behind
//! a lock shared among several layers or exclusively owned, moving the
//! bytes, reporting the transport's opaque error — is the unverified
//! transport glue's business; whatever it reports is propagated unchanged,
//! and on failure the response buffer must be treated as not updated.

use vstd::prelude::*;

verus! {

/// The auto-increment flag the bus protocol can OR into a register address
/// on multi-byte reads.  Deliberately disabled: every read sends the
/// register address unchanged.
pub const I2C_AUTO_INCREMENT: u8 = 0;

/// One combined, indivisible write-then-read bus operation: the device
/// address, the bytes of the write phase, and the number of bytes the read
/// phase expects.  The transport must perform both phases under one bus
/// ownership, with nothing in between.
pub struct BusOperation {
    /// 7-bit device address on the serial bus.
    pub address: u8,
    /// Bytes sent in the write phase, register address first.
    pub write_bytes: Vec<u8>,
    /// Number of bytes the read phase must return.
    pub read_len: usize,
}

impl BusOperation {
    /// A bus operation is well formed when its address fits 7 bits and its
    /// write phase carries at least the register address byte.
    pub open spec fn wf(&self) -> bool {
        self.address < 128 && self.write_bytes@.len() >= 1
    }
}

/// The transaction layer for one device: holds the device's bus address,
/// fixed for the layer's lifetime, and builds the bus operation for each
/// logical register read or write.
pub struct Com {
    address: u8,
}

impl Com {
    /// The fixed device address this layer addresses on the bus.
    pub closed spec fn device_address(&self) -> u8 {
        self.address
    }

    /// A transaction layer is well formed when its device address fits the
    /// bus's 7 address bits.
    pub closed spec fn wf(&self) -> bool {
        self.address < 128
    }

    /// Create the transaction layer for a device with the given 7-bit bus
    /// address.
    pub fn new(address: u8) -> (r: Com)
        requires
            address < 128,
        ensures
            r.wf(),
            r.device_address() == address,
    {
        Com { address }
    }

    /// Read one byte from a register: write the register address, read one
    /// response byte, as one combined operation.
    pub fn read_register_op(&self, reg: u8) -> (op: BusOperation)
        requires
            self.wf(),
        ensures
            op.wf(),
            op.address == self.device_address(),
            op.write_bytes@ == seq![reg],
            op.read_len == 1,
    {
        self.read_registers_op(reg, 1)
    }

    /// Read `read_len` consecutive bytes starting at a register: write the
    /// register address (with the auto-increment flag, which is disabled),
    /// then read `read_len` response bytes in device order, as one combined
    /// operation.
    pub fn read_registers_op(&self, reg: u8, read_len: usize) -> (op: BusOperation)
        requires
            self.wf(),
        ensures
            op.wf(),
            op.address == self.device_address(),
            op.write_bytes@ == seq![reg],
            op.read_len == read_len,
    {
        proof {
            assert(reg | 0 == reg) by (bit_vector);
        }
        let mut write_bytes: Vec<u8> = Vec::new();
        write_bytes.push(reg | I2C_AUTO_INCREMENT);
        let op = BusOperation { address: self.address, write_bytes, read_len };
        proof {
            assert(op.write_bytes@ =~= seq![reg]);
        }
        op
    }

    /// Read a six-byte block from a register: the multi-byte read with a
    /// fixed six-byte response.
    pub fn read_6bytes_op(&self, reg: u8) -> (op: BusOperation)
        requires
            self.wf(),
        ensures
            op.wf(),
            op.address == self.device_address(),
            op.write_bytes@ == seq![reg],
            op.read_len == 6,
    {
        self.read_registers_op(reg, 6)
    }

    /// Read a 16-bit word from a register: the multi-byte read with a
    /// two-byte response, composed big-endian by [`decode_16bit`].
    pub fn read_16bit_op(&self, reg: u8) -> (op: BusOperation)
        requires
            self.wf(),
        ensures
            op.wf(),
            op.address == self.device_address(),
            op.write_bytes@ == seq![reg],
            op.read_len == 2,
    {
        self.read_registers_op(reg, 2)
    }

    /// Write one byte to a register: write the register address and the
    /// value, then read one discard byte — the transport requires a read
    /// phase to complete the transaction; the byte means nothing here.
    pub fn write_byte_op(&self, reg: u8, value: u8) -> (op: BusOperation)
        requires
            self.wf(),
        ensures
            op.wf(),
            op.address == self.device_address(),
            op.write_bytes@ == seq![reg, value],
            op.read_len == 1,
    {
        let mut write_bytes: Vec<u8> = Vec::new();
        write_bytes.push(reg);
        write_bytes.push(value);
        let op = BusOperation { address: self.address, write_bytes, read_len: 1 };
        proof {
            assert(op.write_bytes@ =~= seq![reg, value]);
        }
        op
    }

    /// Write a 16-bit word to a register, most significant byte first, then
    /// read one discard byte.
    pub fn write_16bit_op(&self, reg: u8, word: u16) -> (op: BusOperation)
        requires
            self.wf(),
        ensures
            op.wf(),
            op.address == self.device_address(),
            op.write_bytes@ == seq![reg, (word / 256) as u8, (word % 256) as u8],
            op.read_len == 1,
    {
        let mut write_bytes: Vec<u8> = Vec::new();
        write_bytes.push(reg);
        write_bytes.push((word / 256) as u8);
        write_bytes.push((word % 256) as u8);
        let op = BusOperation { address: self.address, write_bytes, read_len: 1 };
        proof {
            assert(op.write_bytes@ =~= seq![reg, (word / 256) as u8, (word % 256) as u8]);
        }
        op
    }

    /// Write a 32-bit word to a register, most significant byte first, then
    /// read one discard byte.
    pub fn write_32bit_op(&self, reg: u8, word: u32) -> (op: BusOperation)
        requires
            self.wf(),
        ensures
            op.wf(),
            op.address == self.device_address(),
            op.write_bytes@ == seq![
                reg,
                (word / 0x1000000) as u8,
                ((word / 0x10000) % 256) as u8,
                ((word / 256) % 256) as u8,
                (word % 256) as u8,
            ],
            op.read_len == 1,
    {
        let mut write_bytes: Vec<u8> = Vec::new();
        write_bytes.push(reg);
        write_bytes.push((word / 0x1000000) as u8);
        write_bytes.push(((word / 0x10000) % 256) as u8);
        write_bytes.push(((word / 256) % 256) as u8);
        write_bytes.push((word % 256) as u8);
        let op = BusOperation { address: self.address, write_bytes, read_len: 1 };
        proof {
            assert(op.write_bytes@ =~= seq![
                reg,
                (word / 0x1000000) as u8,
                ((word / 0x10000) % 256) as u8,
                ((word / 256) % 256) as u8,
                (word % 256) as u8,
            ]);
        }
        op
    }

    /// Write a six-byte block to a register — seven write bytes in all —
    /// then read a six-byte discard response.  Every other write reads one
    /// discard byte; this six-byte read-back is preserved as the device
    /// protocol has it, deliberately unchanged.
    pub fn write_6bytes_op(&self, reg: u8, bytes: &[u8; 6]) -> (op: BusOperation)
        requires
            self.wf(),
        ensures
            op.wf(),
            op.address == self.device_address(),
            op.write_bytes@ == seq![
                reg,
                bytes@[0],
                bytes@[1],
                bytes@[2],
                bytes@[3],
                bytes@[4],
                bytes@[5],
            ],
            op.read_len == 6,
    {
        let mut write_bytes: Vec<u8> = Vec::new();
        write_bytes.push(reg);
        write_bytes.push(bytes[0]);
        write_bytes.push(bytes[1]);
        write_bytes.push(bytes[2]);
        write_bytes.push(bytes[3]);
        write_bytes.push(bytes[4]);
        write_bytes.push(bytes[5]);
        let op = BusOperation { address: self.address, write_bytes, read_len: 6 };
        proof {
            assert(op.write_bytes@ =~= seq![
                reg,
                bytes@[0],
                bytes@[1],
                bytes@[2],
                bytes@[3],
                bytes@[4],
                bytes@[5],
            ]);
        }
        op
    }
}

/// Compose the two response bytes of a 16-bit register read, big-endian:
/// the first byte read is the most significant.
pub fn decode_16bit(buffer: &[u8; 2]) -> (r: u16)
    ensures
        r == buffer@[0] * 256 + buffer@[1],
{
    (buffer[0] as u16) * 256 + (buffer[1] as u16)
}

/// Writing a 16-bit word and composing the two payload bytes of the write
/// phase big-endian gives the word back: `write_16bit_op` and
/// `decode_16bit` agree on byte order.
pub proof fn lemma_16bit_byte_order(word: u16)
    ensures
        ((word / 256) as u8) * 256 + ((word % 256) as u8) == word,
{
}

} // verus!
