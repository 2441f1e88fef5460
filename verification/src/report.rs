//! The reports this crate builds for a device: control commands, and the
//! framing of an image into a sequence of output reports.

use crate::bytes::{copy_into, le16, le16_bytes, padded, zeroed};
use crate::deck::StreamDeck;
use crate::error::Error;
use crate::images::DeviceImage;
use crate::info::Kind;
use crate::keys::native_key_index;
use vstd::prelude::*;
use vstd::utf8::{encode_utf8, valid_utf8};

verus! {

/// Length of every feature report.
pub const FEATURE_REPORT_LEN: usize = 17;

/// Highest brightness a device takes, in percent.
pub const MAX_BRIGHTNESS: u8 = 100;

/// Number of image bytes in the first of the two reports that carry an
/// image to the first model.
pub const LEGACY_FIRST_PAYLOAD: usize = 7749;

/// Length of the image that the two reports for the first model carry
/// between them.
pub const LEGACY_IMAGE_LEN: usize = 15552;

/// Number of values a report's sequence field can take.
pub const SEQUENCE_LIMIT: usize = 65536;

/// The feature report that resets a device.
pub open spec fn reset_report(kind: Kind) -> Seq<u8> {
    if kind.is_v2() {
        padded(seq![0x03u8, 0x02], FEATURE_REPORT_LEN as int)
    } else {
        padded(seq![0x0bu8, 0x63], FEATURE_REPORT_LEN as int)
    }
}

/// The brightness a device is given when `brightness` percent are asked
/// for: no more than a hundred.
pub open spec fn clamped_brightness(brightness: u8) -> u8 {
    if brightness > MAX_BRIGHTNESS {
        MAX_BRIGHTNESS
    } else {
        brightness
    }
}

/// The feature report that sets a device's brightness.
pub open spec fn brightness_report(kind: Kind, brightness: u8) -> Seq<u8> {
    if kind.is_v2() {
        padded(seq![0x03u8, 0x08, clamped_brightness(brightness)], FEATURE_REPORT_LEN as int)
    } else {
        padded(
            seq![0x05u8, 0x55, 0xaa, 0xd1, 0x01, clamped_brightness(brightness)],
            FEATURE_REPORT_LEN as int,
        )
    }
}

/// Any brightness of a hundred percent or more gives the report that a
/// hundred percent give.
pub proof fn lemma_brightness_clamps(kind: Kind, brightness: u8)
    requires
        brightness >= MAX_BRIGHTNESS,
    ensures
        brightness_report(kind, brightness) == brightness_report(kind, MAX_BRIGHTNESS),
{
}

/// The buffer that asks a device for its firmware version: it is handed to
/// the transport, which fills in the answer.
pub open spec fn version_request(kind: Kind) -> Seq<u8> {
    if kind.is_v2() {
        padded(seq![0x05u8], FEATURE_REPORT_LEN as int)
    } else {
        padded(seq![0x04u8], FEATURE_REPORT_LEN as int)
    }
}

/// Position at which the version text starts in a device's answer.
pub open spec fn version_offset(kind: Kind) -> int {
    if kind.is_v2() {
        6
    } else {
        5
    }
}

/// The byte that says whether a report is the last of its image.
pub open spec fn last_flag(is_last: bool) -> u8 {
    if is_last {
        1
    } else {
        0
    }
}

/// The fields at the start of an image report.
pub open spec fn image_header(
    kind: Kind,
    key: u8,
    sequence: u16,
    is_last: bool,
    payload_len: int,
) -> Seq<u8> {
    if kind.is_v2() {
        seq![0x02u8, 0x07, key, last_flag(is_last)] + le16_bytes(payload_len) + le16_bytes(
            sequence as int,
        )
    } else {
        seq![0x02u8, 0x01] + le16_bytes(sequence as int) + seq![last_flag(is_last), key]
    }
}

/// One image report: the header fields, zeros up to the header's length,
/// the leading bytes, the image bytes, and zeros up to the report's length.
pub open spec fn image_report(
    kind: Kind,
    key: u8,
    sequence: u16,
    is_last: bool,
    lead: Seq<u8>,
    payload: Seq<u8>,
) -> Seq<u8> {
    padded(
        padded(
            image_header(kind, key, sequence, is_last, payload.len() as int),
            kind.image_report_header_len() as int,
        ) + lead + payload,
        kind.image_report_len() as int,
    )
}

/// Room for image bytes in a report that carries no leading bytes.
pub open spec fn chunk_capacity(kind: Kind) -> int {
    kind.image_report_len() - kind.image_report_header_len()
}

/// Room for image bytes in the first report of an image, which carries the
/// model's leading bytes.
pub open spec fn first_chunk_capacity(kind: Kind) -> int {
    chunk_capacity(kind) - kind.spec_image_base().len()
}

/// Number of reports into which an image of `len` bytes is split.
pub open spec fn chunk_count(kind: Kind, len: int) -> int {
    if len <= 0 {
        0
    } else if len <= first_chunk_capacity(kind) {
        1
    } else {
        2 + (len - first_chunk_capacity(kind) - 1) / chunk_capacity(kind)
    }
}

/// Position in the image of the first byte that report `index` would
/// carry, were the image long enough.
pub open spec fn chunk_start(kind: Kind, index: int) -> int {
    if index <= 0 {
        0
    } else {
        first_chunk_capacity(kind) + (index - 1) * chunk_capacity(kind)
    }
}

/// Position in an image of `len` bytes just after the last byte that
/// report `index` carries.
pub open spec fn chunk_end(kind: Kind, len: int, index: int) -> int {
    if chunk_start(kind, index + 1) < len {
        chunk_start(kind, index + 1)
    } else {
        len
    }
}

/// The image bytes that report `index` carries.
pub open spec fn chunk_payload(kind: Kind, image: Seq<u8>, index: int) -> Seq<u8> {
    image.subrange(chunk_start(kind, index), chunk_end(kind, image.len() as int, index))
}

/// The bytes that report `index` carries in front of its image bytes.
pub open spec fn chunk_lead(kind: Kind, index: int) -> Seq<u8> {
    if index == 0 {
        kind.spec_image_base()
    } else {
        Seq::empty()
    }
}

/// Report `index` of an image, for the models that split an image into as
/// many reports as it needs.
pub open spec fn chunk_report(kind: Kind, key: u8, image: Seq<u8>, index: int) -> Seq<u8> {
    image_report(
        kind,
        key,
        index as u16,
        index + 1 == chunk_count(kind, image.len() as int),
        chunk_lead(kind, index),
        chunk_payload(kind, image, index),
    )
}

/// Whether an image of `len` bytes can be framed for a model. The first
/// model takes images of one length only. The others take any image whose
/// reports the sequence field can number.
pub open spec fn frameable(kind: Kind, len: int) -> bool {
    if kind == Kind::Original {
        len == LEGACY_IMAGE_LEN
    } else {
        chunk_count(kind, len) <= SEQUENCE_LIMIT
    }
}

/// The reports that carry an image to the key a device numbers `key`, in
/// the order in which they are sent.
pub open spec fn image_reports(kind: Kind, key: u8, image: Seq<u8>) -> Seq<Seq<u8>> {
    if kind == Kind::Original {
        seq![
            image_report(
                kind,
                key,
                1,
                false,
                kind.spec_image_base(),
                image.subrange(0, LEGACY_FIRST_PAYLOAD as int),
            ),
            image_report(
                kind,
                key,
                2,
                true,
                Seq::empty(),
                image.subrange(LEGACY_FIRST_PAYLOAD as int, LEGACY_IMAGE_LEN as int),
            ),
        ]
    } else {
        Seq::new(
            chunk_count(kind, image.len() as int) as nat,
            |index: int| chunk_report(kind, key, image, index),
        )
    }
}

/// The capacities of the models that split an image into as many reports
/// as it needs.
pub proof fn lemma_capacities(kind: Kind)
    requires
        kind != Kind::Original,
    ensures
        0 < first_chunk_capacity(kind) <= chunk_capacity(kind),
        kind == Kind::Mini ==> chunk_capacity(kind) == 1008 && first_chunk_capacity(kind) == 954,
        kind != Kind::Mini ==> chunk_capacity(kind) == 1016 && first_chunk_capacity(kind)
            == 1016,
{
    kind.lemma_report_has_room();
}

/// Later reports start later in the image.
pub proof fn lemma_chunk_start_increases(kind: Kind, i: int, j: int)
    requires
        kind != Kind::Original,
        0 <= i < j,
    ensures
        chunk_start(kind, i) < chunk_start(kind, j),
{
    lemma_capacities(kind);
    if kind == Kind::Mini {
        assert((j - 1) * chunk_capacity(kind) == (j - 1) * 1008);
        assert((i - 1) * chunk_capacity(kind) == (i - 1) * 1008);
    } else {
        assert((j - 1) * chunk_capacity(kind) == (j - 1) * 1016);
        assert((i - 1) * chunk_capacity(kind) == (i - 1) * 1016);
    }
}

/// A report starts as far behind the one before it as that one has room.
pub proof fn lemma_chunk_step(kind: Kind, index: int)
    requires
        kind != Kind::Original,
        0 <= index,
    ensures
        chunk_start(kind, index + 1) - chunk_start(kind, index) == if index == 0 {
            first_chunk_capacity(kind)
        } else {
            chunk_capacity(kind)
        },
{
    lemma_capacities(kind);
    if kind == Kind::Mini {
        assert(index * chunk_capacity(kind) == index * 1008);
        assert((index - 1) * chunk_capacity(kind) == (index - 1) * 1008);
    } else {
        assert(index * chunk_capacity(kind) == index * 1016);
        assert((index - 1) * chunk_capacity(kind) == (index - 1) * 1016);
    }
}

/// The last report of an image is the first one whose room reaches the
/// image's end.
pub proof fn lemma_chunk_count_bounds(kind: Kind, len: int)
    requires
        kind != Kind::Original,
        len > 0,
    ensures
        chunk_count(kind, len) >= 1,
        chunk_start(kind, chunk_count(kind, len) - 1) < len <= chunk_start(
            kind,
            chunk_count(kind, len),
        ),
{
    lemma_capacities(kind);
    let n = chunk_count(kind, len);
    if kind == Kind::Mini {
        assert((n - 1) * chunk_capacity(kind) == (n - 1) * 1008);
        assert((n - 2) * chunk_capacity(kind) == (n - 2) * 1008);
        if len > 954 {
            assert(n == 2 + (len - 954 - 1) / 1008);
        }
    } else {
        assert((n - 1) * chunk_capacity(kind) == (n - 1) * 1016);
        assert((n - 2) * chunk_capacity(kind) == (n - 2) * 1016);
        if len > 1016 {
            assert(n == 2 + (len - 1016 - 1) / 1016);
        }
    }
}

/// The image bytes that the first `count` reports carry, joined in order.
pub open spec fn joined_payloads(kind: Kind, image: Seq<u8>, count: int) -> Seq<u8>
    decreases count,
{
    if count <= 0 {
        Seq::empty()
    } else {
        joined_payloads(kind, image, count - 1) + chunk_payload(kind, image, count - 1)
    }
}

/// The number of image bytes that the first `count` reports carry.
pub open spec fn total_payload_len(kind: Kind, len: int, count: int) -> int
    decreases count,
{
    if count <= 0 {
        0
    } else {
        total_payload_len(kind, len, count - 1) + chunk_end(kind, len, count - 1) - chunk_start(
            kind,
            count - 1,
        )
    }
}

/// The sequence number that an image report carries.
pub open spec fn sequence_field(kind: Kind, report: Seq<u8>) -> int {
    if kind.is_v2() {
        le16(report[6], report[7]) as int
    } else {
        le16(report[2], report[3]) as int
    }
}

/// Whether an image report is marked as the last of its image.
pub open spec fn last_field(kind: Kind, report: Seq<u8>) -> bool {
    if kind.is_v2() {
        report[3] == 1
    } else {
        report[4] == 1
    }
}

/// The key that an image report addresses.
pub open spec fn key_field(kind: Kind, report: Seq<u8>) -> u8 {
    if kind.is_v2() {
        report[2]
    } else {
        report[5]
    }
}

/// The reports before the last one are full, and the last one ends with
/// the image: the image bytes of the first `count` reports are the image up
/// to where report `count` starts.
proof fn lemma_joined_prefix(kind: Kind, image: Seq<u8>, count: int)
    requires
        kind != Kind::Original,
        0 <= count <= chunk_count(kind, image.len() as int),
    ensures
        joined_payloads(kind, image, count) == image.subrange(
            0,
            if chunk_start(kind, count) < image.len() {
                chunk_start(kind, count)
            } else {
                image.len() as int
            },
        ),
        total_payload_len(kind, image.len() as int, count) == if chunk_start(kind, count)
            < image.len() {
            chunk_start(kind, count)
        } else {
            image.len() as int
        },
    decreases count,
{
    lemma_capacities(kind);
    if count > 0 {
        lemma_joined_prefix(kind, image, count - 1);
        lemma_chunk_count_bounds(kind, image.len() as int);
        lemma_chunk_start_increases(kind, count - 1, count);
        if count < chunk_count(kind, image.len() as int) {
            lemma_chunk_start_increases(kind, count - 1, chunk_count(kind, image.len() as int) - 1);
        }
        assert(joined_payloads(kind, image, count) =~= image.subrange(
            0,
            if chunk_start(kind, count) < image.len() {
                chunk_start(kind, count)
            } else {
                image.len() as int
            },
        ));
    } else {
        assert(joined_payloads(kind, image, count) =~= image.subrange(0, 0));
    }
}

/// On the models that split an image into as many reports as it needs, the
/// reports carry the whole image and nothing else: their image bytes,
/// joined in order, are the image, and the lengths of their payloads add
/// up to the image's length.
pub proof fn lemma_chunks_cover_image(kind: Kind, image: Seq<u8>)
    requires
        kind != Kind::Original,
    ensures
        joined_payloads(kind, image, chunk_count(kind, image.len() as int)) == image,
        total_payload_len(kind, image.len() as int, chunk_count(kind, image.len() as int))
            == image.len(),
{
    let count = chunk_count(kind, image.len() as int);
    lemma_capacities(kind);
    if image.len() > 0 {
        lemma_chunk_count_bounds(kind, image.len() as int);
    }
    lemma_joined_prefix(kind, image, count);
    assert(image.subrange(0, image.len() as int) =~= image);
}

/// On the models that split an image into as many reports as it needs,
/// every report carries at least one image byte, starts where the report
/// before it ended, and ends with the image exactly when it is the last.
pub proof fn lemma_chunks_tile(kind: Kind, len: int, index: int)
    requires
        kind != Kind::Original,
        0 <= index < chunk_count(kind, len),
    ensures
        chunk_start(kind, 0) == 0,
        chunk_start(kind, index) < chunk_end(kind, len, index) <= len,
        chunk_end(kind, len, index) - chunk_start(kind, index) <= chunk_capacity(kind),
        chunk_end(kind, len, 0) <= first_chunk_capacity(kind),
        index + 1 < chunk_count(kind, len) ==> chunk_end(kind, len, index) == chunk_start(
            kind,
            index + 1,
        ),
        (index + 1 == chunk_count(kind, len)) == (chunk_end(kind, len, index) == len),
{
    lemma_capacities(kind);
    lemma_chunk_count_bounds(kind, len);
    let count = chunk_count(kind, len);
    lemma_chunk_start_increases(kind, index, index + 1);
    if index < count - 1 {
        lemma_chunk_start_increases(kind, index, count - 1);
    }
    if index + 1 < count - 1 {
        lemma_chunk_start_increases(kind, index + 1, count - 1);
    }
    lemma_chunk_step(kind, index);
}

/// What an image report holds where: the fields of its header, then its
/// leading bytes and its image bytes directly behind the header, then
/// zeros.
pub proof fn lemma_report_layout(
    kind: Kind,
    key: u8,
    sequence: u16,
    is_last: bool,
    lead: Seq<u8>,
    payload: Seq<u8>,
)
    requires
        kind.image_report_header_len() + lead.len() + payload.len() <= kind.image_report_len(),
    ensures
        ({
            let report = image_report(kind, key, sequence, is_last, lead, payload);
            let body = kind.image_report_header_len() as int;
            &&& report.len() == kind.image_report_len()
            &&& sequence_field(kind, report) == sequence
            &&& last_field(kind, report) == is_last
            &&& key_field(kind, report) == key
            &&& kind.is_v2() ==> le16(report[4], report[5]) == payload.len() % 65536
            &&& report.subrange(body, body + lead.len()) == lead
            &&& report.subrange(body + lead.len(), body + lead.len() + payload.len())
                == payload
            &&& forall|i: int|
                body + lead.len() + payload.len() <= i < report.len() ==> report[i] == 0
        }),
{
    let report = image_report(kind, key, sequence, is_last, lead, payload);
    let body = kind.image_report_header_len() as int;
    assert(report.subrange(body, body + lead.len()) =~= lead);
    assert(report.subrange(body + lead.len(), body + lead.len() + payload.len()) =~= payload);
}

/// On the models that split an image into as many reports as it needs, the
/// reports are numbered from zero in the order in which they are sent, and
/// the last report, and no other, is marked as the last.
pub proof fn lemma_chunk_fields(kind: Kind, key: u8, image: Seq<u8>, index: int)
    requires
        kind != Kind::Original,
        frameable(kind, image.len() as int),
        0 <= index < chunk_count(kind, image.len() as int),
    ensures
        image_reports(kind, key, image).len() == chunk_count(kind, image.len() as int),
        sequence_field(kind, image_reports(kind, key, image)[index]) == index,
        last_field(kind, image_reports(kind, key, image)[index]) == (index + 1 == chunk_count(
            kind,
            image.len() as int,
        )),
        key_field(kind, image_reports(kind, key, image)[index]) == key,
{
    lemma_capacities(kind);
    lemma_chunks_tile(kind, image.len() as int, index);
    lemma_report_layout(
        kind,
        key,
        index as u16,
        index + 1 == chunk_count(kind, image.len() as int),
        chunk_lead(kind, index),
        chunk_payload(kind, image, index),
    );
}

/// The first model gets an image in two reports, numbered one and two: the
/// first carries the bitmap header and the image's first 7749 bytes, the
/// second, marked as the last, the remaining 7803.
pub proof fn lemma_legacy_split(key: u8, image: Seq<u8>)
    requires
        image.len() == LEGACY_IMAGE_LEN,
    ensures
        ({
            let reports = image_reports(Kind::Original, key, image);
            &&& reports.len() == 2
            &&& sequence_field(Kind::Original, reports[0]) == 1
            &&& sequence_field(Kind::Original, reports[1]) == 2
            &&& !last_field(Kind::Original, reports[0])
            &&& last_field(Kind::Original, reports[1])
            &&& reports[0].subrange(16, 70) == Kind::Original.spec_image_base()
            &&& reports[0].subrange(70, 7819) == image.subrange(0, 7749)
            &&& reports[1].subrange(16, 7819) == image.subrange(7749, 15552)
            &&& image.subrange(0, 7749) + image.subrange(7749, 15552) == image
        }),
{
    let kind = Kind::Original;
    lemma_report_layout(kind, key, 1, false, kind.spec_image_base(), image.subrange(0, 7749));
    lemma_report_layout(kind, key, 2, true, Seq::empty(), image.subrange(7749, 15552));
    assert(image.subrange(0, 7749) + image.subrange(7749, 15552) =~= image);
}

/// Calls `String::from_utf8` and drops the error's detail.
///
/// Believed of it: it succeeds exactly on valid UTF-8, and the string it
/// gives has the bytes it was given.
#[verifier::external_body]
fn string_from_utf8(bytes: Vec<u8>) -> (res: Option<String>)
    ensures
        res is Some <==> valid_utf8(bytes@),
        res matches Some(text) ==> encode_utf8(text@) == bytes@,
{
    String::from_utf8(bytes).ok()
}

impl StreamDeck {
    /// The feature report that resets the device.
    pub fn reset(&self) -> (cmd: Vec<u8>)
        ensures
            cmd@ == reset_report(self@),
    {
        let mut cmd = zeroed(FEATURE_REPORT_LEN);
        if self.kind().is_v2() {
            cmd.set(0, 0x03);
            cmd.set(1, 0x02);
        } else {
            cmd.set(0, 0x0b);
            cmd.set(1, 0x63);
        }
        assert(cmd@ =~= reset_report(self@));
        cmd
    }

    /// The feature report that sets the display brightness, in percent. A
    /// brightness above a hundred counts as a hundred.
    pub fn set_brightness(&self, brightness: u8) -> (cmd: Vec<u8>)
        ensures
            cmd@ == brightness_report(self@, brightness),
    {
        let mut cmd = zeroed(FEATURE_REPORT_LEN);
        let brightness: u8 = if brightness > MAX_BRIGHTNESS {
            MAX_BRIGHTNESS
        } else {
            brightness
        };
        if self.kind().is_v2() {
            cmd.set(0, 0x03);
            cmd.set(1, 0x08);
            cmd.set(2, brightness);
        } else {
            cmd.set(0, 0x05);
            cmd.set(1, 0x55);
            cmd.set(2, 0xaa);
            cmd.set(3, 0xd1);
            cmd.set(4, 0x01);
            cmd.set(5, brightness);
        }
        assert(cmd@ =~= brightness_report(self@, brightness));
        cmd
    }

    /// The buffer that asks the device for its firmware version.
    pub fn version_request(&self) -> (cmd: Vec<u8>)
        ensures
            cmd@ == version_request(self@),
    {
        let mut cmd = zeroed(FEATURE_REPORT_LEN);
        if self.kind().is_v2() {
            cmd.set(0, 0x05);
        } else {
            cmd.set(0, 0x04);
        }
        assert(cmd@ =~= version_request(self@));
        cmd
    }

    /// The firmware version in a device's answer to a version request: the
    /// text that the bytes from the model's offset on encode.
    ///
    /// Gives nothing exactly when the answer ends before that offset or the
    /// bytes there are not valid UTF-8.
    pub fn version(&self, response: &[u8]) -> (res: Option<String>)
        ensures
            match res {
                Some(text) => version_offset(self@) <= response@.len() && encode_utf8(text@)
                    == response@.subrange(version_offset(self@), response@.len() as int),
                None => version_offset(self@) > response@.len() || !valid_utf8(
                    response@.subrange(version_offset(self@), response@.len() as int),
                ),
            },
    {
        let offset: usize = if self.kind().is_v2() {
            6
        } else {
            5
        };
        if response.len() < offset {
            return None;
        }
        let mut text: Vec<u8> = Vec::new();
        let mut i: usize = offset;
        while i < response.len()
            invariant
                offset <= i <= response@.len(),
                text@ == response@.subrange(offset as int, i as int),
            decreases response@.len() - i,
        {
            text.push(response[i]);
            i += 1;
            assert(text@ =~= response@.subrange(offset as int, i as int));
        }
        string_from_utf8(text)
    }

    /// Writes the header fields of an image report to the start of a
    /// buffer and leaves the rest of the buffer as it was.
    ///
    /// The payload length is written with its two low bytes.
    pub fn write_image_header(
        &self,
        buf: &mut Vec<u8>,
        key: u8,
        sequence: u16,
        is_last: bool,
        payload_len: usize,
    )
        requires
            old(buf)@.len() >= image_header(
                self@,
                key,
                sequence,
                is_last,
                payload_len as int,
            ).len(),
        ensures
            final(buf)@ == image_header(self@, key, sequence, is_last, payload_len as int)
                + old(buf)@.subrange(
                image_header(self@, key, sequence, is_last, payload_len as int).len() as int,
                old(buf)@.len() as int,
            ),
    {
        let last: u8 = if is_last {
            1
        } else {
            0
        };
        let sequence_lo: u8 = (sequence % 256) as u8;
        let sequence_hi: u8 = (sequence / 256) as u8;
        if self.kind().is_v2() {
            let len_lo: u8 = (payload_len % 256) as u8;
            let len_hi: u8 = ((payload_len / 256) % 256) as u8;
            buf.set(0, 0x02);
            buf.set(1, 0x07);
            buf.set(2, key);
            buf.set(3, last);
            buf.set(4, len_lo);
            buf.set(5, len_hi);
            buf.set(6, sequence_lo);
            buf.set(7, sequence_hi);
        } else {
            buf.set(0, 0x02);
            buf.set(1, 0x01);
            buf.set(2, sequence_lo);
            buf.set(3, sequence_hi);
            buf.set(4, last);
            buf.set(5, key);
        }
        assert(buf@ =~= image_header(self@, key, sequence, is_last, payload_len as int) + old(
            buf,
        )@.subrange(
            image_header(self@, key, sequence, is_last, payload_len as int).len() as int,
            old(buf)@.len() as int,
        ));
    }

    /// Builds one image report around the bytes `start..end` of an image.
    fn build_image_report(
        &self,
        key: u8,
        sequence: u16,
        is_last: bool,
        lead: &Vec<u8>,
        image: &Vec<u8>,
        start: usize,
        end: usize,
    ) -> (report: Vec<u8>)
        requires
            start <= end <= image@.len(),
            self@.image_report_header_len() + lead@.len() + (end - start)
                <= self@.image_report_len(),
        ensures
            report@ == image_report(
                self@,
                key,
                sequence,
                is_last,
                lead@,
                image@.subrange(start as int, end as int),
            ),
    {
        let kind = self.kind();
        let header_len: usize = kind.image_report_header_len();
        let mut report = zeroed(kind.image_report_len());
        self.write_image_header(&mut report, key, sequence, is_last, end - start);
        copy_into(&mut report, header_len, lead.as_slice(), 0, lead.len());
        copy_into(&mut report, header_len + lead.len(), image.as_slice(), start, end);
        assert(report@ =~= image_report(
            kind,
            key,
            sequence,
            is_last,
            lead@,
            image@.subrange(start as int, end as int),
        ));
        report
    }

    /// Frames an image for one key: the reports to send to the device, in
    /// order.
    ///
    /// Fails with `InvalidKeyIndex` when the device has no key `key`, and
    /// otherwise with `InvalidImageSize` when the image cannot be framed for
    /// the device's model.
    pub fn write_button_image(&self, key: u8, image: &DeviceImage) -> (res: Result<
        Vec<Vec<u8>>,
        Error,
    >)
        ensures
            match res {
                Ok(reports) => key < self@.keys() && frameable(self@, image@.len() as int)
                    && reports.deep_view() == image_reports(
                    self@,
                    native_key_index(self@, key as int) as u8,
                    image@,
                ),
                Err(e) => if key >= self@.keys() {
                    e is InvalidKeyIndex
                } else {
                    !frameable(self@, image@.len() as int) && e is InvalidImageSize
                },
            },
    {
        let kind = self.kind();
        let native: u8 = match self.translate_key_index(key) {
            Ok(native) => native,
            Err(e) => {
                return Err(e);
            },
        };
        let data = image.data();
        let len: usize = data.len();
        let base = kind.image_base();
        let empty: Vec<u8> = Vec::new();
        let mut reports: Vec<Vec<u8>> = Vec::new();
        if kind == Kind::Original {
            if len != LEGACY_IMAGE_LEN {
                return Err(Error::InvalidImageSize);
            }
            let first = self.build_image_report(
                native,
                1,
                false,
                &base,
                data,
                0,
                LEGACY_FIRST_PAYLOAD,
            );
            let second = self.build_image_report(
                native,
                2,
                true,
                &empty,
                data,
                LEGACY_FIRST_PAYLOAD,
                LEGACY_IMAGE_LEN,
            );
            reports.push(first);
            reports.push(second);
            assert(reports.deep_view() =~~= image_reports(kind, native, image@));
            return Ok(reports);
        }
        proof {
            lemma_capacities(kind);
        }
        let capacity: usize = kind.image_report_len() - kind.image_report_header_len();
        let first_capacity: usize = capacity - base.len();
        let count: usize = if len == 0 {
            0
        } else if len <= first_capacity {
            1
        } else {
            2 + (len - first_capacity - 1) / capacity
        };
        if count > SEQUENCE_LIMIT {
            return Err(Error::InvalidImageSize);
        }
        let mut index: usize = 0;
        let mut offset: usize = 0;
        while offset < len
            invariant
                kind == self@,
                kind != Kind::Original,
                data@ == image@,
                len == data@.len(),
                base@ == kind.spec_image_base(),
                empty@ == Seq::<u8>::empty(),
                capacity == chunk_capacity(kind),
                first_capacity == first_chunk_capacity(kind),
                count == chunk_count(kind, len as int),
                count <= SEQUENCE_LIMIT,
                index <= count,
                offset <= len,
                offset == if chunk_start(kind, index as int) < len {
                    chunk_start(kind, index as int)
                } else {
                    len as int
                },
                reports@.len() == index,
                forall|i: int|
                    0 <= i < index ==> (#[trigger] reports@[i])@ == chunk_report(
                        kind,
                        native,
                        image@,
                        i,
                    ),
            decreases len - offset,
        {
            proof {
                lemma_chunk_count_bounds(kind, len as int);
                lemma_chunks_tile(kind, len as int, index as int);
                lemma_chunk_step(kind, index as int);
            }
            let room: usize = if index == 0 {
                first_capacity
            } else {
                capacity
            };
            let lead: &Vec<u8> = if index == 0 {
                &base
            } else {
                &empty
            };
            let take: usize = if len - offset < room {
                len - offset
            } else {
                room
            };
            let is_last: bool = take == len - offset;
            let report = self.build_image_report(
                native,
                index as u16,
                is_last,
                lead,
                data,
                offset,
                offset + take,
            );
            reports.push(report);
            index += 1;
            offset += take;
        }
        proof {
            if len > 0 {
                lemma_chunk_count_bounds(kind, len as int);
                if index < count - 1 {
                    lemma_chunk_start_increases(kind, index as int, count - 1);
                }
            }
            assert(reports.deep_view() =~~= image_reports(kind, native, image@));
        }
        Ok(reports)
    }
}

} // verus!
