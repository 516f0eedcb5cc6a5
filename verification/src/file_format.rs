use vstd::prelude::*;
use crate::controls::FileFormat;

verus! {

/// The input ended before a header could be read in full.
#[derive(Debug, Clone, Copy, PartialEq, Eq, Structural)]
pub enum FormatError {
    ShortRead,
}

/// How many leading bytes of a file [`check_file`] may look at: a caller that
/// hands over fewer bytes must hand over the whole file.
pub const HEADER_SPAN: usize = 4;

/// A known file header: its magic bytes, the format it marks, and the
/// position in the file where the magic bytes stand.
pub struct Header {
    pub magic: Vec<u8>,
    pub format: FileFormat,
    pub offset: usize,
}

impl View for Header {
    type V = (Seq<u8>, FileFormat, int);

    open spec fn view(&self) -> (Seq<u8>, FileFormat, int) {
        (self.magic@, self.format, self.offset as int)
    }
}

/// The known headers, tried in this order: Ogg (`OggS`), MP3 (`ID3`),
/// FLAC (`fLaC`) and WAV (`RIFF`), each at the start of the file.
pub open spec fn known_headers() -> Seq<(Seq<u8>, FileFormat, int)> {
    seq![
        (seq![0x4fu8, 0x67u8, 0x67u8, 0x53u8], FileFormat::Audio, 0int),
        (seq![0x49u8, 0x44u8, 0x33u8], FileFormat::Audio, 0int),
        (seq![0x66u8, 0x4cu8, 0x61u8, 0x43u8], FileFormat::Audio, 0int),
        (seq![0x52u8, 0x49u8, 0x46u8, 0x46u8], FileFormat::Audio, 0int),
    ]
}

/// The classification of a file whose leading bytes are `data`, trying
/// `headers` in order: reading a header past the end of the data fails; the
/// first header whose magic bytes stand at its position gives the format;
/// when none does, the file is `Other`.
pub open spec fn classify(data: Seq<u8>, headers: Seq<(Seq<u8>, FileFormat, int)>) -> Result<
    FileFormat,
    FormatError,
>
    decreases headers.len(),
{
    if headers.len() == 0 {
        Ok(FileFormat::Other)
    } else {
        let (magic, format, offset) = headers[0];
        if data.len() < offset + magic.len() {
            Err(FormatError::ShortRead)
        } else if data.subrange(offset, offset + magic.len()) == magic {
            Ok(format)
        } else {
            classify(data, headers.drop_first())
        }
    }
}

/// The table of known headers.
pub fn header_table() -> (t: Vec<Header>)
    ensures
        t@.map_values(|h: Header| h@) == known_headers(),
        forall|i: int| 0 <= i < t@.len() ==> (#[trigger] t@[i]).offset + t@[i].magic@.len() <= HEADER_SPAN,
{
    let mut t: Vec<Header> = Vec::new();
    t.push(Header { magic: vec![0x4fu8, 0x67u8, 0x67u8, 0x53u8], format: FileFormat::Audio, offset: 0 });
    t.push(Header { magic: vec![0x49u8, 0x44u8, 0x33u8], format: FileFormat::Audio, offset: 0 });
    t.push(Header { magic: vec![0x66u8, 0x4cu8, 0x61u8, 0x43u8], format: FileFormat::Audio, offset: 0 });
    t.push(Header { magic: vec![0x52u8, 0x49u8, 0x46u8, 0x46u8], format: FileFormat::Audio, offset: 0 });
    assert(t@.map_values(|h: Header| h@) =~= known_headers());
    t
}

/// Whether `magic` stands in `data` at `offset`.
fn magic_at(data: &[u8], offset: usize, magic: &Vec<u8>) -> (r: bool)
    requires
        offset + magic@.len() <= data@.len(),
        offset + magic@.len() <= data.len(),
    ensures
        r == (data@.subrange(offset as int, offset + magic@.len()) == magic@),
{
    let mut i: usize = 0;
    while i < magic.len()
        invariant
            i <= magic@.len(),
            offset + magic@.len() <= data@.len(),
            offset + magic@.len() <= data.len(),
            forall|j: int| 0 <= j < i ==> data@[offset + j] == magic@[j],
        decreases magic.len() - i,
    {
        if data[offset + i] != magic[i] {
            assert(data@.subrange(offset as int, offset + magic@.len())[i as int] != magic@[i as int]);
            return false;
        }
        i += 1;
    }
    assert(data@.subrange(offset as int, offset + magic@.len()) =~= magic@);
    true
}

/// Classifies a file by its leading bytes (at most [`HEADER_SPAN`] of them
/// are looked at; fewer only when the file is that short).
///
/// The known headers are tried in order, each read from its position: a
/// header that reaches past the end of the data fails the whole check with
/// `ShortRead`; the first header whose magic bytes match gives `Audio`; a
/// file that matches none is `Other`.
pub fn check_file(data: &[u8]) -> (r: Result<FileFormat, FormatError>)
    ensures
        r == classify(data@, known_headers()),
{
    let headers = header_table();
    let ghost hs = headers@.map_values(|h: Header| h@);
    assert(hs.skip(0) =~= hs);
    let mut i: usize = 0;
    while i < headers.len()
        invariant
            i <= headers@.len(),
            hs == headers@.map_values(|h: Header| h@),
            hs == known_headers(),
            classify(data@, known_headers()) == classify(data@, hs.skip(i as int)),
        decreases headers.len() - i,
    {
        let h = &headers[i];
        assert(hs.skip(i as int)[0] == h@);
        assert(hs.skip(i as int).drop_first() =~= hs.skip(i + 1));
        if data.len() < h.offset + h.magic.len() {
            return Err(FormatError::ShortRead);
        }
        if magic_at(data, h.offset, &h.magic) {
            return Ok(h.format);
        }
        i += 1;
    }
    Ok(FileFormat::Other)
}

/// `data` begins with `magic`.
pub open spec fn starts_with(data: Seq<u8>, magic: Seq<u8>) -> bool {
    magic.len() <= data.len() && data.take(magic.len() as int) == magic
}

/// A file of at least [`HEADER_SPAN`] bytes is classified without error, and
/// it is audio exactly when it begins with one of the known magic numbers.
pub proof fn lemma_classify_long_input(data: Seq<u8>)
    requires
        data.len() >= HEADER_SPAN,
    ensures
        classify(data, known_headers()) is Ok,
        classify(data, known_headers()) == Ok::<FileFormat, FormatError>(FileFormat::Audio) <==> exists|i: int|
            0 <= i < known_headers().len() && starts_with(data, (#[trigger] known_headers()[i]).0),
{
    let hs = known_headers();
    reveal_with_fuel(classify, 5);
    assert(hs.drop_first() =~= hs.subrange(1, 4));
    assert(hs.subrange(1, 4).drop_first() =~= hs.subrange(2, 4));
    assert(hs.subrange(2, 4).drop_first() =~= hs.subrange(3, 4));
    assert(hs.subrange(3, 4).drop_first() =~= Seq::<(Seq<u8>, FileFormat, int)>::empty());
    assert forall|i: int| 0 <= i < hs.len() implies data.subrange(0, hs[i].0.len() as int)
        == data.take(hs[i].0.len() as int) by {
        assert(data.subrange(0, hs[i].0.len() as int) =~= data.take(hs[i].0.len() as int));
    }
    if classify(data, hs) == Ok::<FileFormat, FormatError>(FileFormat::Audio) {
        if starts_with(data, hs[0].0) {
        } else if starts_with(data, hs[1].0) {
        } else if starts_with(data, hs[2].0) {
        } else {
            assert(starts_with(data, hs[3].0));
        }
    }
}

/// Classification by magic number, with the magic bytes written out: fewer
/// than four bytes is a short read (the Ogg header, tried first, needs four);
/// otherwise a file is audio exactly when it begins with `ID3` (MP3), `OggS`,
/// `fLaC` or `RIFF`, and is `Other` when it begins with none of them.
pub proof fn lemma_check_file_by_magic(data: Seq<u8>)
    ensures
        data.len() < 4 ==> classify(data, known_headers()) == Err::<FileFormat, FormatError>(
            FormatError::ShortRead,
        ),
        data.len() >= 4 && data[0] == 0x49u8 && data[1] == 0x44u8 && data[2] == 0x33u8
            ==> classify(data, known_headers()) == Ok::<FileFormat, FormatError>(FileFormat::Audio),
        data.len() >= 4 && data[0] == 0x4fu8 && data[1] == 0x67u8 && data[2] == 0x67u8 && data[3]
            == 0x53u8 ==> classify(data, known_headers()) == Ok::<FileFormat, FormatError>(
            FileFormat::Audio,
        ),
        data.len() >= 4 && data[0] == 0x66u8 && data[1] == 0x4cu8 && data[2] == 0x61u8 && data[3]
            == 0x43u8 ==> classify(data, known_headers()) == Ok::<FileFormat, FormatError>(
            FileFormat::Audio,
        ),
        data.len() >= 4 && data[0] == 0x52u8 && data[1] == 0x49u8 && data[2] == 0x46u8 && data[3]
            == 0x46u8 ==> classify(data, known_headers()) == Ok::<FileFormat, FormatError>(
            FileFormat::Audio,
        ),
        data.len() >= 4 && !(data[0] == 0x49u8 && data[1] == 0x44u8 && data[2] == 0x33u8) && !(
        data[0] == 0x4fu8 && data[1] == 0x67u8 && data[2] == 0x67u8 && data[3] == 0x53u8) && !(
        data[0] == 0x66u8 && data[1] == 0x4cu8 && data[2] == 0x61u8 && data[3] == 0x43u8) && !(
        data[0] == 0x52u8 && data[1] == 0x49u8 && data[2] == 0x46u8 && data[3] == 0x46u8)
            ==> classify(data, known_headers()) == Ok::<FileFormat, FormatError>(FileFormat::Other),
{
    let hs = known_headers();
    reveal_with_fuel(classify, 5);
    assert(hs.drop_first() =~= hs.subrange(1, 4));
    assert(hs.subrange(1, 4).drop_first() =~= hs.subrange(2, 4));
    assert(hs.subrange(2, 4).drop_first() =~= hs.subrange(3, 4));
    assert(hs.subrange(3, 4).drop_first() =~= Seq::<(Seq<u8>, FileFormat, int)>::empty());
    if data.len() >= 4 {
        let d4 = data.subrange(0, 4);
        let d3 = data.subrange(0, 3);
        assert(d4 =~= seq![data[0], data[1], data[2], data[3]]);
        assert(d3 =~= seq![data[0], data[1], data[2]]);
        assert(d4 == hs[0].0 <==> (data[0] == 0x4fu8 && data[1] == 0x67u8 && data[2] == 0x67u8
            && data[3] == 0x53u8)) by {
            if d4 == hs[0].0 {
                assert(d4[0] == hs[0].0[0] && d4[1] == hs[0].0[1] && d4[2] == hs[0].0[2] && d4[3]
                    == hs[0].0[3]);
            }
        }
        assert(d3 == hs[1].0 <==> (data[0] == 0x49u8 && data[1] == 0x44u8 && data[2] == 0x33u8)) by {
            if d3 == hs[1].0 {
                assert(d3[0] == hs[1].0[0] && d3[1] == hs[1].0[1] && d3[2] == hs[1].0[2]);
            }
        }
        assert(d4 == hs[2].0 <==> (data[0] == 0x66u8 && data[1] == 0x4cu8 && data[2] == 0x61u8
            && data[3] == 0x43u8)) by {
            if d4 == hs[2].0 {
                assert(d4[0] == hs[2].0[0] && d4[1] == hs[2].0[1] && d4[2] == hs[2].0[2] && d4[3]
                    == hs[2].0[3]);
            }
        }
        assert(d4 == hs[3].0 <==> (data[0] == 0x52u8 && data[1] == 0x49u8 && data[2] == 0x46u8
            && data[3] == 0x46u8)) by {
            if d4 == hs[3].0 {
                assert(d4[0] == hs[3].0[0] && d4[1] == hs[3].0[1] && d4[2] == hs[3].0[2] && d4[3]
                    == hs[3].0[3]);
            }
        }
    }
}

} // verus!
