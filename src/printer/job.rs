//! The job header: the command group that configures one print job.

use vstd::prelude::*;

use crate::printer::status::{Media, MediaType};

verus! {

/// Parameters of one print job.
#[derive(Debug, Clone, Copy)]
pub struct Info {
    pub media: Media,
    pub num_lines: u32,
    pub page: Page,
    pub prioritize_quality: bool,
    pub cut_each: u8,
    pub auto_cut: bool,
    pub cut_at_end: bool,
    pub high_resolution: bool,
}

/// Whether a page starts the job.
#[derive(Debug, Clone, Copy, PartialEq, Eq, Structural)]
pub enum Page {
    Starting,
    Other,
}

/// Valid-flags bit: media type is given.
pub const MEDIA_TYPE: u8 = 0x02;
/// Valid-flags bit: media width is given.
pub const MEDIA_WIDTH: u8 = 0x04;
/// Valid-flags bit: media length is given.
pub const MEDIA_LENGTH: u8 = 0x08;
/// Valid-flags bit: print quality takes priority over speed.
pub const PRIORITY_GIVEN_TO_PRINT_QUALITY: u8 = 0x40;
/// Valid-flags bit: printer recovery is always on.
pub const PRINTER_RECOVERY_ALWAYS_ON: u8 = 0x80;

/// `v` if `b` holds, else 0.
pub open spec fn bit_if(b: bool, v: u8) -> u8 {
    if b {
        v
    } else {
        0
    }
}

/// The four bytes of `n`, least significant first.
pub open spec fn le_bytes(n: u32) -> Seq<u8> {
    seq![(n % 256) as u8, (n / 256 % 256) as u8, (n / 65536 % 256) as u8, (n / 16777216) as u8]
}

impl Info {
    /// Whether the job can be written: media is loaded and catalogued.
    pub open spec fn is_printable(&self) -> bool {
        self.media.media_type != MediaType::NoMedia && self.media.label_view() is Some
    }

    /// The print information command (13 bytes).
    pub open spec fn print_information(&self) -> Seq<u8> {
        seq![
            0x1Bu8, 0x69, 0x7A,
            (MEDIA_TYPE + MEDIA_WIDTH + MEDIA_LENGTH + bit_if(self.prioritize_quality, PRIORITY_GIVEN_TO_PRINT_QUALITY) + PRINTER_RECOVERY_ALWAYS_ON) as u8,
            if self.media.media_type == MediaType::ContinuousTape { 0x0Au8 } else { 0x0Bu8 },
            self.media.width,
            self.media.length,
            le_bytes(self.num_lines)[0],
            le_bytes(self.num_lines)[1],
            le_bytes(self.num_lines)[2],
            le_bytes(self.num_lines)[3],
            if self.page == Page::Starting { 0u8 } else { 1u8 },
            0,
        ]
    }

    /// The cut-each command (4 bytes).
    pub open spec fn cut_each_command(&self) -> Seq<u8> {
        seq![0x1Bu8, 0x69, 0x41, self.cut_each]
    }

    /// The various-mode command (4 bytes).
    pub open spec fn mode_command(&self) -> Seq<u8> {
        seq![0x1Bu8, 0x69, 0x4D, bit_if(self.auto_cut, 0x40)]
    }

    /// The expanded-mode command (4 bytes).
    pub open spec fn expanded_mode_command(&self) -> Seq<u8> {
        seq![0x1Bu8, 0x69, 0x4B, (bit_if(self.cut_at_end, 0x08) + bit_if(self.high_resolution, 0x40)) as u8]
    }

    /// The margins command (5 bytes): the label's feed margin, 16-bit little-endian.
    pub open spec fn margins_command(&self) -> Seq<u8> {
        seq![0x1Bu8, 0x69, 0x64, self.media.label_view()->0.feed_margin, 0]
    }

    /// The whole header: the five commands in order.
    pub open spec fn header(&self) -> Seq<u8> {
        self.print_information() + self.cut_each_command() + self.mode_command()
            + self.expanded_mode_command() + self.margins_command()
    }

    /// A job for `num_lines` raster lines on `media`, with the defaults:
    /// not the starting page, quality first, cut after each label, auto cut,
    /// cut at end, standard resolution.
    pub fn new(media: Media, num_lines: u32) -> (r: Self)
        ensures
            r.media == media,
            r.num_lines == num_lines,
            r.page == Page::Other,
            r.prioritize_quality,
            r.cut_each == 1,
            r.auto_cut,
            r.cut_at_end,
            !r.high_resolution,
    {
        Self {
            media,
            num_lines,
            page: Page::Other,
            prioritize_quality: true,
            cut_each: 1,
            auto_cut: true,
            cut_at_end: true,
            high_resolution: false,
        }
    }

    /// Writes the job header.
    pub fn serialize(&self) -> (r: Vec<u8>)
        requires
            self.is_printable(),
        ensures
            r@ == self.header(),
    {
        let mut command: Vec<u8> = Vec::new();
        let quality: u8 = if self.prioritize_quality {
            PRIORITY_GIVEN_TO_PRINT_QUALITY
        } else {
            0
        };
        command.push(0x1B);
        command.push(0x69);
        command.push(0x7A);
        let flags: u8 = MEDIA_TYPE | MEDIA_WIDTH | MEDIA_LENGTH | quality | PRINTER_RECOVERY_ALWAYS_ON;
        proof {
            assert(quality == 0 || quality == 0x40);
            assert(quality == 0 || quality == 0x40 ==> 0x02u8 | 0x04u8 | 0x08u8 | quality | 0x80u8 == 0x8Eu8 + quality)
                by (bit_vector);
        }
        command.push(flags);
        command.push(
            match self.media.media_type {
                MediaType::ContinuousTape => 0x0A,
                _ => 0x0B,
            },
        );
        command.push(self.media.width);
        command.push(self.media.length);
        let n = self.num_lines;
        command.push((n % 256) as u8);
        command.push(((n / 256) % 256) as u8);
        command.push(((n / 65536) % 256) as u8);
        command.push(((n / 16777216) % 256) as u8);
        command.push(
            match self.page {
                Page::Starting => 0,
                Page::Other => 1,
            },
        );
        command.push(0);
        proof {
            assert(command@ =~= self.print_information());
        }

        command.push(0x1B);
        command.push(0x69);
        command.push(0x41);
        command.push(self.cut_each);

        command.push(0x1B);
        command.push(0x69);
        command.push(0x4D);
        command.push(if self.auto_cut { 0x40 } else { 0 });

        let cut_at_end: u8 = if self.cut_at_end {
            0x08
        } else {
            0
        };
        let high_resolution: u8 = if self.high_resolution {
            0x40
        } else {
            0
        };
        command.push(0x1B);
        command.push(0x69);
        command.push(0x4B);
        proof {
            assert((cut_at_end == 0 || cut_at_end == 0x08) && (high_resolution == 0 || high_resolution
                == 0x40) ==> cut_at_end | high_resolution == cut_at_end + high_resolution) by (bit_vector);
        }
        command.push(cut_at_end | high_resolution);

        let label = self.media.to_label();
        command.push(0x1B);
        command.push(0x69);
        command.push(0x64);
        command.push(label.feed_margin);
        command.push(0);
        proof {
            assert(command@ =~= self.header());
        }
        command
    }
}

/// Every job header is 13 + 4 + 4 + 4 + 5 = 30 bytes long.
pub proof fn lemma_header_length(info: Info)
    ensures
        info.header().len() == 30,
{
}

} // verus!
