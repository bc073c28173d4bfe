//! Transfers between the sensor's registers and memory, cut into pieces that the bus can take.
use vstd::prelude::*;

verus! {

/// The address of the sensor on the bus.
pub const SENSOR_ADDRESS: u8 = 0x29;

/// How many bytes of data go over the bus in one piece.
pub const PIECE: usize = 32;

/// How long the next piece is when `done` of `size` bytes are through.
pub open spec fn piece_len(size: int, done: int) -> int {
    if size - done < PIECE {
        size - done
    } else {
        PIECE as int
    }
}

/// The register at which the byte number `done` of a transfer lands; registers wrap around.
pub open spec fn piece_register(register: int, done: int) -> int {
    (register + done) % 0x1_0000
}

/// A register address as it goes over the bus: the upper byte first.
pub open spec fn address_bytes(register: int) -> Seq<u8> {
    seq![(register / 256) as u8, (register % 256) as u8]
}

/// The bytes that write the next piece of `values`: the register, then the data.
pub open spec fn write_message(register: int, values: Seq<u8>, done: int) -> Seq<u8> {
    address_bytes(piece_register(register, done)) + values.subrange(
        done,
        done + piece_len(values.len() as int, done),
    )
}

/// All the messages that write `values` from byte `done` on.
pub open spec fn write_messages(register: int, values: Seq<u8>, done: int) -> Seq<Seq<u8>>
    decreases values.len() - done,
{
    if 0 <= done < values.len() {
        seq![write_message(register, values, done)] + write_messages(
            register,
            values,
            done + piece_len(values.len() as int, done),
        )
    } else {
        Seq::empty()
    }
}

/// One piece of a transfer to the sensor.
pub struct WritePiece {
    /// The register at which the piece begins.
    pub register: u16,
    /// What goes over the bus.
    pub message: Vec<u8>,
    /// How many bytes are through when the piece is.
    pub done: usize,
}

/// One piece of a transfer from the sensor.
pub struct ReadPiece {
    /// The register at which the piece begins.
    pub register: u16,
    /// The register address as it goes over the bus.
    pub address: [u8; 2],
    /// How many bytes are through when the piece is; the piece fills memory up to there.
    pub done: usize,
}

/// What to do next for a transfer to the sensor.
pub enum WriteStep {
    /// Send this piece.
    Send(WritePiece),
    /// The transfer is over, with this status.
    Over(u8),
}

/// What to do next for a transfer from the sensor.
pub enum ReadStep {
    /// Fetch this piece.
    Fetch(ReadPiece),
    /// The transfer is over, with this status.
    Over(u8),
}

/// The status of a transfer that went through.
pub const TRANSFER_DONE: u8 = 0;

/// The status of a transfer of which a piece failed.
pub const TRANSFER_FAILED: u8 = 1;

fn wrapped_register(register: u16, done: usize) -> (r: u16)
    ensures
        r == piece_register(register as int, done as int),
{
    let low: u16 = (done % 0x1_0000) as u16;
    assert((register + low) % 0x1_0000 == (register + done) % 0x1_0000) by {
        vstd::arithmetic::div_mod::lemma_add_mod_noop_right(
            register as int,
            done as int,
            0x1_0000,
        );
    }
    register.wrapping_add(low)
}

/// The next step of a transfer of `values` to the sensor's registers from `register` on, when
/// `done` bytes are through and the last piece, if there was one, went well or not.
pub fn vl53_i2c_write(register: u16, values: &[u8], done: usize, went_well: bool) -> (step:
    WriteStep)
    ensures
        step matches WriteStep::Over(status) ==> {
            ||| !went_well && status == TRANSFER_FAILED
            ||| went_well && done >= values@.len() && status == TRANSFER_DONE
        },
        step is Send <==> went_well && done < values@.len(),
        step matches WriteStep::Send(piece) ==> {
            &&& piece.register == piece_register(register as int, done as int)
            &&& piece.message@ == write_message(register as int, values@, done as int)
            &&& piece.done == done + piece_len(values@.len() as int, done as int)
        },
{
    if !went_well {
        return WriteStep::Over(TRANSFER_FAILED);
    }
    if done >= values.len() {
        return WriteStep::Over(TRANSFER_DONE);
    }
    let left: usize = values.len() - done;
    let len: usize = if left < PIECE {
        left
    } else {
        PIECE
    };
    let at = wrapped_register(register, done);
    let mut message: Vec<u8> = Vec::new();
    message.push((at / 256) as u8);
    message.push((at % 256) as u8);
    let ghost head = address_bytes(at as int);
    assert(message@ =~= head + values@.subrange(done as int, done as int));
    let mut i: usize = 0;
    while i < len
        invariant
            i <= len,
            done + len <= values@.len() <= usize::MAX,
            message@ == head + values@.subrange(done as int, done + i),
        decreases len - i,
    {
        message.push(values[done + i]);
        assert(values@.subrange(done as int, done + i).push(values@[done + i]) =~= values@.subrange(
            done as int,
            done + i + 1,
        ));
        assert(message@ =~= head + values@.subrange(done as int, done + i + 1));
        i = i + 1;
    }
    WriteStep::Send(WritePiece { register: at, message, done: done + len })
}

/// The next step of a transfer of `size` bytes from the sensor's registers from `register` on,
/// when `done` bytes are through and the last piece, if there was one, went well or not.
pub fn vl53_i2c_read(register: u16, size: usize, done: usize, went_well: bool) -> (step: ReadStep)
    ensures
        step matches ReadStep::Over(status) ==> {
            ||| !went_well && status == TRANSFER_FAILED
            ||| went_well && done >= size && status == TRANSFER_DONE
        },
        step is Fetch <==> went_well && done < size,
        step matches ReadStep::Fetch(piece) ==> {
            &&& piece.register == piece_register(register as int, done as int)
            &&& piece.address@ == address_bytes(piece_register(register as int, done as int))
            &&& piece.done == done + piece_len(size as int, done as int)
        },
{
    if !went_well {
        return ReadStep::Over(TRANSFER_FAILED);
    }
    if done >= size {
        return ReadStep::Over(TRANSFER_DONE);
    }
    let left: usize = size - done;
    let len: usize = if left < PIECE {
        left
    } else {
        PIECE
    };
    let at = wrapped_register(register, done);
    let address = [(at / 256) as u8, (at % 256) as u8];
    assert(address@ =~= address_bytes(at as int));
    ReadStep::Fetch(ReadPiece { register: at, address, done: done + len })
}

/// The data that messages carry, behind the two bytes of the register address.
pub open spec fn carried(messages: Seq<Seq<u8>>) -> Seq<u8>
    decreases messages.len(),
{
    if messages.len() == 0 {
        Seq::empty()
    } else {
        messages[0].skip(2) + carried(messages.skip(1))
    }
}

/// The messages of a transfer carry exactly the bytes that were to be written, in their order.
pub proof fn law_write_carries_all(register: int, values: Seq<u8>, done: int)
    requires
        0 <= done <= values.len(),
    ensures
        carried(write_messages(register, values, done)) == values.skip(done),
    decreases values.len() - done,
{
    let messages = write_messages(register, values, done);
    if done < values.len() {
        let next = done + piece_len(values.len() as int, done);
        law_write_carries_all(register, values, next);
        assert(messages.skip(1) =~= write_messages(register, values, next));
        assert(messages[0].skip(2) =~= values.subrange(done, next));
        assert(values.subrange(done, next) + values.skip(next) =~= values.skip(done));
    } else {
        assert(values.skip(done) =~= Seq::empty());
    }
}

/// Every message of a transfer fits the bus: two bytes of address and at most 32 of data, at least
/// one.
pub proof fn law_write_messages_fit(register: int, values: Seq<u8>, done: int)
    requires
        0 <= done <= values.len(),
    ensures
        forall|i: int|
            0 <= i < write_messages(register, values, done).len() ==> 2 < (
            #[trigger] write_messages(register, values, done)[i]).len() <= 2 + PIECE,
    decreases values.len() - done,
{
    if done < values.len() {
        let next = done + piece_len(values.len() as int, done);
        law_write_messages_fit(register, values, next);
        let rest = write_messages(register, values, next);
        let messages = write_messages(register, values, done);
        assert forall|i: int| 0 <= i < messages.len() implies 2 < (#[trigger] messages[i]).len()
            <= 2 + PIECE by {
            if i > 0 {
                assert(messages[i] == rest[i - 1]);
            }
        }
    }
}

/// Message number `i` of a transfer goes to the register `32 * i` behind its first one, counted
/// around the end of the registers.
pub proof fn law_write_registers_advance(register: int, values: Seq<u8>, done: int, i: int)
    requires
        0 <= done <= values.len(),
        0 <= i < write_messages(register, values, done).len(),
    ensures
        write_messages(register, values, done)[i].take(2) == address_bytes(
            piece_register(register, done + i * PIECE),
        ),
        done + i * PIECE < values.len(),
    decreases values.len() - done,
{
    if done < values.len() {
        let next = done + piece_len(values.len() as int, done);
        let messages = write_messages(register, values, done);
        let rest = write_messages(register, values, next);
        if i == 0 {
            assert(messages[0].take(2) =~= address_bytes(piece_register(register, done)));
        } else {
            assert(messages[i] == rest[i - 1]);
            law_write_registers_advance(register, values, next, i - 1);
        }
    }
}

/// A register address is read back from its two bytes.
pub proof fn law_address_reads_back(register: int)
    requires
        0 <= register < 0x1_0000,
    ensures
        address_bytes(register)[0] * 256 + address_bytes(register)[1] == register,
{
    assert(0 <= register / 256 < 256);
}

/// A transfer always moves on, and its pieces follow one another up to the end without a gap.
pub proof fn law_pieces_reach_the_end(size: int, done: int)
    requires
        0 <= done < size,
    ensures
        done < done + piece_len(size, done) <= size,
        done + piece_len(size, done) < size ==> piece_len(size, done) == PIECE,
{
}

/// A transfer to the sensor writes byte after byte to register after register. The piece that
/// follows `done` bytes goes to the register so many places behind the first one, counted around
/// the end of the registers; it names that register in its first two bytes, the upper one first,
/// and carries the next bytes, 32 of them or as many as are left.
pub proof fn law_write_piece(register: u16, values: &[u8], done: usize, step: WriteStep)
    requires
        call_ensures(vl53_i2c_write, (register, values, done, true), step),
        done < values@.len(),
    ensures
        step matches WriteStep::Send(piece) && {
            let len = if values@.len() - done < 32 {
                values@.len() - done
            } else {
                32
            };
            &&& register + done < 0x1_0000 ==> piece.register == register + done
            &&& (register + done - piece.register) % 0x1_0000 == 0
            &&& piece.message@.len() == 2 + len
            &&& piece.message@[0] * 256 + piece.message@[1] == piece.register
            &&& forall|i: int| 0 <= i < len ==> #[trigger] piece.message@[2 + i] == values@[done + i]
            &&& piece.done == done + len
        },
{
}

/// A transfer from the sensor reads the same registers as a transfer to it writes: the piece that
/// follows `done` bytes comes from the register so many places behind the first one, counted
/// around the end of the registers, and brings 32 bytes or as many as are left.
pub proof fn law_read_piece(register: u16, size: usize, done: usize, step: ReadStep)
    requires
        call_ensures(vl53_i2c_read, (register, size, done, true), step),
        done < size,
    ensures
        step matches ReadStep::Fetch(piece) && {
            &&& register + done < 0x1_0000 ==> piece.register == register + done
            &&& (register + done - piece.register) % 0x1_0000 == 0
            &&& piece.address@[0] * 256 + piece.address@[1] == piece.register
            &&& piece.done == if size - done < 32 {
                size as int
            } else {
                done + 32
            }
        },
{
}

/// A transfer is over when all bytes are through, with status 0, or when a piece failed, with
/// status 1, and not before.
pub proof fn law_transfer_status(
    register: u16,
    values: &[u8],
    size: usize,
    done: usize,
    went_well: bool,
    written: WriteStep,
    read: ReadStep,
)
    requires
        call_ensures(vl53_i2c_write, (register, values, done, went_well), written),
        call_ensures(vl53_i2c_read, (register, size, done, went_well), read),
    ensures
        !went_well ==> written == WriteStep::Over(1) && read == ReadStep::Over(1),
        went_well && done >= values@.len() ==> written == WriteStep::Over(0),
        went_well && done < values@.len() ==> written is Send,
        went_well && done >= size ==> read == ReadStep::Over(0),
        went_well && done < size ==> read is Fetch,
{
}

/// The sensor's driver counts the direction bit to the address: there the sensor is at 0x52.
pub proof fn law_sensor_address()
    ensures
        2 * SENSOR_ADDRESS == 0x52,
{
}

} // verus!
