//! Shared-memory records: the pixel formats a shm global advertises.

use vstd::prelude::*;

use crate::app::{apply_event, AppData, CollectorEvent};
use crate::textfmt::hex_digits;

verus! {

/// One shm global and every pixel format it has announced.
pub struct ShmInfo {
    pub name: u32,
    pub formats: Vec<ShmFormat>,
}

/// One pixel format: the raw code and its rendering, four characters when
/// the code spells printable ASCII, eight hexadecimal digits otherwise.
pub struct ShmFormat {
    pub format: u32,
    pub fourcc: String,
}

/// Mathematical image of a `ShmFormat`.
#[verifier::ext_equal]
pub ghost struct ShmFormatView {
    pub format: u32,
    pub fourcc: Seq<char>,
}

/// Mathematical image of a `ShmInfo`.
#[verifier::ext_equal]
pub ghost struct ShmView {
    pub name: u32,
    pub formats: Seq<ShmFormatView>,
}

impl View for ShmFormat {
    type V = ShmFormatView;

    open spec fn view(&self) -> ShmFormatView {
        ShmFormatView { format: self.format, fourcc: self.fourcc@ }
    }
}

impl DeepView for ShmFormat {
    type V = ShmFormatView;

    open spec fn deep_view(&self) -> ShmFormatView {
        self.view()
    }
}

impl View for ShmInfo {
    type V = ShmView;

    open spec fn view(&self) -> ShmView {
        ShmView { name: self.name, formats: self.formats.deep_view() }
    }
}

impl DeepView for ShmInfo {
    type V = ShmView;

    open spec fn deep_view(&self) -> ShmView {
        self.view()
    }
}

/// Whether a byte is printable ASCII other than space.
pub open spec fn is_ascii_graphic_byte(b: u8) -> bool {
    0x21 <= b && b <= 0x7e
}

/// The four bytes of a format code, least significant first.
pub open spec fn fourcc_bytes_of(format: u32) -> Seq<u8> {
    seq![
        (format & 0xff) as u8,
        ((format >> 8) & 0xff) as u8,
        ((format >> 16) & 0xff) as u8,
        ((format >> 24) & 0xff) as u8,
    ]
}

/// The rendering of a format code: its four bytes as characters when all
/// are printable ASCII, else eight lowercase hexadecimal digits.
pub open spec fn fourcc_of(format: u32) -> Seq<char> {
    let bytes = fourcc_bytes_of(format);
    if forall|i: int| 0 <= i < 4 ==> is_ascii_graphic_byte(#[trigger] bytes[i]) {
        seq![bytes[0] as char, bytes[1] as char, bytes[2] as char, bytes[3] as char]
    } else {
        hex_digits(format as nat, 8)
    }
}

/// Renders a format code as its four ASCII characters, or as eight
/// hexadecimal digits when any byte is unprintable.
pub fn format_to_fourcc(format: u32) -> (r: String)
    ensures
        r@ == fourcc_of(format),
{
    let b0 = (format & 0xff) as u8;
    let b1 = ((format >> 8) & 0xff) as u8;
    let b2 = ((format >> 16) & 0xff) as u8;
    let b3 = ((format >> 24) & 0xff) as u8;
    let graphic = 0x21 <= b0 && b0 <= 0x7e && 0x21 <= b1 && b1 <= 0x7e && 0x21 <= b2 && b2 <= 0x7e
        && 0x21 <= b3 && b3 <= 0x7e;
    proof {
        let bytes = fourcc_bytes_of(format);
        assert(bytes[0] == b0 && bytes[1] == b1 && bytes[2] == b2 && bytes[3] == b3);
    }
    if graphic {
        let mut r = String::new();
        crate::textfmt::push_char(&mut r, b0 as char);
        crate::textfmt::push_char(&mut r, b1 as char);
        crate::textfmt::push_char(&mut r, b2 as char);
        crate::textfmt::push_char(&mut r, b3 as char);
        proof {
            assert(r@ =~= fourcc_of(format));
        }
        r
    } else {
        crate::textfmt::u32_to_hex(format, 8)
    }
}

impl AppData {
    /// Creates the record for a newly announced shm global, with no formats
    /// yet.
    pub fn add_shm(&mut self, name: u32)
        ensures
            final(self)@ == apply_event(old(self)@, CollectorEvent::AddShm { name }),
    {
        self.shm_info.push(ShmInfo { name, formats: Vec::new() });
        proof {
            assert(self@ =~~= apply_event(old(self)@, CollectorEvent::AddShm { name }));
        }
    }

    /// Appends a format event's code, rendered, to the shm record at
    /// `shm_index`; an index past the records discards the event.
    pub fn add_shm_format(&mut self, shm_index: usize, format: u32)
        ensures
            final(self)@ == apply_event(
                old(self)@,
                CollectorEvent::AddShmFormat { shm_index: shm_index as int, format },
            ),
    {
        if shm_index < self.shm_info.len() {
            let fourcc = format_to_fourcc(format);
            self.shm_info[shm_index].formats.push(ShmFormat { format, fourcc });
            proof {
                assert(self@ =~~= apply_event(
                    old(self)@,
                    CollectorEvent::AddShmFormat { shm_index: shm_index as int, format },
                ));
            }
        }
    }
}

} // verus!
