use vstd::prelude::*;

verus! {

/// What decoding the PNG file with the contents `file` gives: the pixels of
/// its first frame, row by row, with its width and height; or `None` where
/// `file` cannot be decoded.
pub uninterp spec fn png_decoded(file: Seq<u8>) -> Option<(Seq<u8>, u32, u32)>;

/// Decodes the contents of a PNG file.
///
/// Calls `png::Decoder::new` on the bytes, then `read_info`,
/// `Reader::output_buffer_size`, `Reader::next_frame` and `Reader::info`,
/// with the limits and transformations that the decoder starts with. Not
/// proved: that an error from `read_info` or `next_frame` is all that makes
/// this fail, and that what is returned depends on the bytes alone.
#[verifier::external_body]
pub(crate) fn load_from_file(file: &[u8]) -> (decoded: Option<(Vec<u8>, u32, u32)>)
    ensures
        match decoded {
            Some((data, width, height)) => png_decoded(file@) == Some((data@, width, height)),
            None => png_decoded(file@) is None,
        },
{
    let mut reader = png::Decoder::new(file).read_info().ok()?;
    let mut buffer: Vec<u8> = vec![0; reader.output_buffer_size()];
    reader.next_frame(&mut buffer).ok()?;
    Some((buffer, reader.info().width, reader.info().height))
}

} // verus!
