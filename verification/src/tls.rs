//! The TLS directory and the callbacks that it lists.

use crate::bytes::{array_fits, fits, read_u32, read_u64, u32_at, u64_at};
use crate::error::Error;
use crate::format::Format;
use vstd::prelude::*;

verus! {

/// The TLS directory. The fields that hold a virtual address are four bytes
/// wide in a 32-bit image and are widened here.
#[derive(Clone, Copy, Debug, PartialEq, Eq)]
pub struct TlsDirectory {
    pub start_address_of_raw_data: u64,
    pub end_address_of_raw_data: u64,
    pub address_of_index: u64,
    /// Virtual address of the callback array, or zero.
    pub address_of_call_backs: u64,
    pub size_of_zero_fill: u32,
    pub characteristics: u32,
}

/// The TLS directory of a 32-bit image whose first byte is at `offset`.
pub open spec fn tls_directory32_at(image: Seq<u8>, offset: int) -> TlsDirectory {
    TlsDirectory {
        start_address_of_raw_data: u32_at(image, offset) as u64,
        end_address_of_raw_data: u32_at(image, offset + 4) as u64,
        address_of_index: u32_at(image, offset + 8) as u64,
        address_of_call_backs: u32_at(image, offset + 12) as u64,
        size_of_zero_fill: u32_at(image, offset + 16),
        characteristics: u32_at(image, offset + 20),
    }
}

/// The TLS directory of a 64-bit image whose first byte is at `offset`.
pub open spec fn tls_directory64_at(image: Seq<u8>, offset: int) -> TlsDirectory {
    TlsDirectory {
        start_address_of_raw_data: u64_at(image, offset),
        end_address_of_raw_data: u64_at(image, offset + 8),
        address_of_index: u64_at(image, offset + 16),
        address_of_call_backs: u64_at(image, offset + 24),
        size_of_zero_fill: u32_at(image, offset + 32),
        characteristics: u32_at(image, offset + 36),
    }
}

/// The TLS directory of the given variant whose first byte is at `offset`.
pub open spec fn tls_directory_at(image: Seq<u8>, offset: int, format: Format) -> TlsDirectory {
    match format {
        Format::Pe32 => tls_directory32_at(image, offset),
        Format::Pe32Plus => tls_directory64_at(image, offset),
    }
}

/// The address-sized field that starts at `offset`.
pub open spec fn pointer_at(image: Seq<u8>, offset: int, format: Format) -> u64 {
    match format {
        Format::Pe32 => u32_at(image, offset) as u64,
        Format::Pe32Plus => u64_at(image, offset),
    }
}

/// Slot `i` of the array of address-sized fields that starts at `offset`.
pub open spec fn slot_at(image: Seq<u8>, offset: int, format: Format, i: int) -> u64 {
    pointer_at(image, offset + format.pointer_size() * i, format)
}

/// The callbacks of the array that starts at `offset`: the slots from there
/// on, up to the first one that is null or does not lie inside the image.
pub open spec fn callbacks_at(image: Seq<u8>, offset: int, format: Format) -> Seq<u64>
    decreases image.len() - offset,
{
    if 0 <= offset && offset + format.pointer_size() <= image.len() && pointer_at(
        image,
        offset,
        format,
    ) != 0 {
        seq![pointer_at(image, offset, format)] + callbacks_at(
            image,
            offset + format.pointer_size(),
            format,
        )
    } else {
        Seq::empty()
    }
}

fn read_tls_directory(image: &[u8], offset: usize, format: Format) -> (directory: TlsDirectory)
    requires
        offset + format.tls_directory_size() <= image.len(),
    ensures
        directory == tls_directory_at(image@, offset as int, format),
{
    match format {
        Format::Pe32 => TlsDirectory {
            start_address_of_raw_data: read_u32(image, offset) as u64,
            end_address_of_raw_data: read_u32(image, offset + 4) as u64,
            address_of_index: read_u32(image, offset + 8) as u64,
            address_of_call_backs: read_u32(image, offset + 12) as u64,
            size_of_zero_fill: read_u32(image, offset + 16),
            characteristics: read_u32(image, offset + 20),
        },
        Format::Pe32Plus => TlsDirectory {
            start_address_of_raw_data: read_u64(image, offset),
            end_address_of_raw_data: read_u64(image, offset + 8),
            address_of_index: read_u64(image, offset + 16),
            address_of_call_backs: read_u64(image, offset + 24),
            size_of_zero_fill: read_u32(image, offset + 32),
            characteristics: read_u32(image, offset + 36),
        },
    }
}

fn read_pointer(image: &[u8], offset: usize, format: Format) -> (value: u64)
    requires
        offset + format.pointer_size() <= image.len(),
    ensures
        value == pointer_at(image@, offset as int, format),
{
    match format {
        Format::Pe32 => read_u32(image, offset) as u64,
        Format::Pe32Plus => read_u64(image, offset),
    }
}

/// The TLS directory of an image, and the variant of the image.
#[derive(Clone, Copy, Debug, PartialEq, Eq)]
pub struct TlsDir {
    pub tls_dir: TlsDirectory,
    pub format: Format,
}

impl TlsDir {
    /// What [`TlsDir::parse`] returns.
    pub open spec fn spec_parse(image: Seq<u8>, rva: usize, format: Format) -> Result<
        TlsDir,
        Error,
    > {
        if fits(image.len(), rva as int, format.tls_directory_size() as int, 1) {
            Ok(TlsDir { tls_dir: tls_directory_at(image, rva as int, format), format })
        } else {
            Err(Error::InvalidHeaders)
        }
    }

    /// Reads the TLS directory that starts `rva` bytes into the image.
    ///
    /// Fails with [`Error::InvalidHeaders`] if the directory reaches outside
    /// the image.
    pub fn parse(image: &[u8], rva: usize, format: Format) -> (result: Result<TlsDir, Error>)
        ensures
            result == TlsDir::spec_parse(image@, rva, format),
    {
        if !array_fits(image.len(), rva, format.tls_directory_size(), 1) {
            return Err(Error::InvalidHeaders);
        }
        Ok(TlsDir { tls_dir: read_tls_directory(image, rva, format), format })
    }

    /// What [`TlsDir::callbacks`] hands out, in order.
    pub open spec fn spec_callbacks(self, image: Seq<u8>, image_base: u64) -> Seq<u64> {
        if self.tls_dir.address_of_call_backs == 0 {
            Seq::empty()
        } else {
            callbacks_at(image, self.tls_dir.address_of_call_backs - image_base, self.format)
        }
    }

    /// The callbacks that the directory lists, for an image whose first byte
    /// is mapped at the virtual address `image_base`.
    ///
    /// The directory gives the virtual address of the callback array. The
    /// sequence is empty if that address is zero or not one of the image.
    pub fn callbacks<'a>(&self, image: &'a [u8], image_base: u64) -> (callbacks: TlsCallbacks<'a>)
        ensures
            callbacks@ == self.spec_callbacks(image@, image_base),
    {
        let address: u64 = self.tls_dir.address_of_call_backs;
        let len: usize = image.len();
        let offset: usize = if address != 0 && address >= image_base && address - image_base
            <= len as u64 {
            (address - image_base) as usize
        } else {
            len
        };
        TlsCallbacks { image, offset, format: self.format }
    }
}

/// The callbacks of a TLS directory that have not been handed out yet.
///
/// The callbacks are the non-null slots of an array that a null slot ends.
/// Nothing is read beyond the image: where the array is not ended inside it,
/// the sequence ends with the last slot that lies inside.
pub struct TlsCallbacks<'a> {
    image: &'a [u8],
    offset: usize,
    format: Format,
}

impl<'a> View for TlsCallbacks<'a> {
    type V = Seq<u64>;

    /// The callbacks that are still to come, in order.
    closed spec fn view(&self) -> Seq<u64> {
        callbacks_at(self.image@, self.offset as int, self.format)
    }
}

impl<'a> TlsCallbacks<'a> {
    /// Hands out the next callback: the virtual address of the function.
    /// Returns `None` once the null slot, or the end of the image, is
    /// reached, and from then on.
    pub fn next(&mut self) -> (callback: Option<u64>)
        ensures
            match callback {
                Some(address) => {
                    &&& old(self)@.len() > 0
                    &&& address == old(self)@[0]
                    &&& final(self)@ == old(self)@.drop_first()
                },
                None => old(self)@.len() == 0 && final(self)@.len() == 0,
            },
    {
        let size: usize = self.format.pointer_size();
        if !array_fits(self.image.len(), self.offset, size, 1) {
            return None;
        }
        let address: u64 = read_pointer(self.image, self.offset, self.format);
        if address == 0 {
            return None;
        }
        proof {
            let rest = callbacks_at(self.image@, self.offset + size, self.format);
            assert((seq![address] + rest).drop_first() =~= rest);
        }
        self.offset = self.offset + size;
        Some(address)
    }

    /// Hands out all the callbacks that are still to come.
    pub fn collect(&mut self) -> (callbacks: Vec<u64>)
        ensures
            callbacks@ == old(self)@,
            final(self)@.len() == 0,
    {
        let mut callbacks: Vec<u64> = Vec::new();
        loop
            invariant
                callbacks@ + self@ == old(self)@,
            ensures
                callbacks@ == old(self)@,
                self@.len() == 0,
            decreases self@.len(),
        {
            let ghost before = self@;
            match self.next() {
                Some(address) => {
                    callbacks.push(address);
                    assert(callbacks@ + self@ =~= callbacks@.drop_last() + before);
                },
                None => {
                    assert(callbacks@ + self@ =~= callbacks@);
                    break ;
                },
            }
        }
        callbacks
    }
}

/// No callback of the sequence is null.
pub proof fn lemma_callbacks_are_not_null(image: Seq<u8>, offset: int, format: Format, i: int)
    requires
        0 <= i < callbacks_at(image, offset, format).len(),
    ensures
        callbacks_at(image, offset, format)[i] != 0,
    decreases i,
{
    if i > 0 {
        lemma_callbacks_are_not_null(image, offset + format.pointer_size(), format, i - 1);
    }
}

/// An array of `count` callbacks that are not null, followed by a null slot,
/// all inside the image, is read as exactly those callbacks, in order.
pub proof fn lemma_callbacks_end_at_null(image: Seq<u8>, offset: int, format: Format, count: nat)
    requires
        0 <= offset,
        offset + format.pointer_size() * (count + 1) <= image.len(),
        forall|i: int| 0 <= i < count ==> #[trigger] slot_at(image, offset, format, i) != 0,
        slot_at(image, offset, format, count as int) == 0,
    ensures
        callbacks_at(image, offset, format) == Seq::new(
            count,
            |i: int| slot_at(image, offset, format, i),
        ),
    decreases count,
{
    let size: int = format.pointer_size() as int;
    let slots = Seq::new(count, |i: int| slot_at(image, offset, format, i));
    assert(size == 4 || size == 8);
    if count == 0 {
        assert(callbacks_at(image, offset, format) =~= slots);
    } else {
        let rest: nat = (count - 1) as nat;
        assert(slot_at(image, offset, format, 0) != 0);
        assert forall|i: int| 0 <= i <= rest implies #[trigger] slot_at(
            image,
            offset + size,
            format,
            i,
        ) == slot_at(image, offset, format, i + 1) by {
            assert(offset + size + size * i == offset + size * (i + 1)) by (nonlinear_arith);
        }
        assert(offset + size + size * (rest + 1) == offset + size * (count + 1))
            by (nonlinear_arith)
            requires
                rest == count - 1,
        ;
        lemma_callbacks_end_at_null(image, offset + size, format, rest);
        let tail = Seq::new(rest, |i: int| slot_at(image, offset + size, format, i));
        assert(callbacks_at(image, offset, format) == seq![slot_at(image, offset, format, 0)]
            + tail);
        assert(seq![slot_at(image, offset, format, 0)] + tail =~= slots);
    }
}

} // verus!
