/*!
A verified argument-marshalling layer for idiomatic calls into the CSPICE
toolkit.

CSPICE routines follow C calling conventions: a routine that writes a string
takes the output buffer's length as an extra argument, and a routine that
fills an array takes a starting index and a room count. The functions here
take the idiomatic arguments alone and derive the complete raw argument list,
stated exactly in each contract. The unverified foreign-call layer then
performs the call with those arguments and nothing else.
*/
use vstd::prelude::*;

verus! {

/// Default length for a string output buffer handed to a CSPICE routine.
pub const MAX_LEN_OUT: usize = 256;

/// Arguments of a raw `bodc2n` call.
pub struct BodyNameCall {
    /// SPICE integer code of the body.
    pub code: i32,
    /// Length of the buffer that receives the body name.
    pub lenout: i32,
}

/// Translate the SPICE integer code of a body into a common name for that
/// body: derive the raw `bodc2n` arguments, with the default length for the
/// name buffer.
pub fn bodc2n(code: i32) -> (c: BodyNameCall)
    ensures
        c.code == code,
        c.lenout == MAX_LEN_OUT as i32,
{
    BodyNameCall { code, lenout: MAX_LEN_OUT as i32 }
}

/// DLA segment descriptor, the eight integers with which CSPICE locates a
/// segment inside a DLA file.
#[derive(Clone, Copy, Debug, PartialEq, Eq, Structural)]
pub struct DLADSC {
    /// Backward pointer to the preceding segment.
    pub bwdptr: i32,
    /// Forward pointer to the following segment.
    pub fwdptr: i32,
    /// Base address of the segment's integer component.
    pub ibase: i32,
    /// Size of the segment's integer component.
    pub isize: i32,
    /// Base address of the segment's character component.
    pub cbase: i32,
    /// Size of the segment's character component.
    pub csize: i32,
    /// Base address of the segment's double precision component.
    pub dbase: i32,
    /// Size of the segment's double precision component.
    pub dsize: i32,
}

/// What `dskz02` reports of a type 2 DSK segment: how many vertices and how
/// many plates it holds.
#[derive(Clone, Copy, Debug, PartialEq, Eq, Structural)]
pub struct DskCounts {
    /// Number of vertices in the segment.
    pub nv: i32,
    /// Number of plates in the segment.
    pub np: i32,
}

/// Arguments of a raw `dskp02` or `dskv02` fetch.
pub struct DskFetchCall {
    /// Handle of the open DSK file.
    pub handle: i32,
    /// Descriptor of the DLA segment to read.
    pub dladsc: DLADSC,
    /// One-based index of the first record to fetch.
    pub start: i32,
    /// Room: how many records to fetch.
    pub room: i32,
}

/// Fetch the triangular plates of a type 2 DSK segment: given what `dskz02`
/// reported of the segment, derive the raw `dskp02` arguments that fetch
/// every plate, from the first (CSPICE counts records from one) to the last.
pub fn dskp02(handle: i32, dladsc: DLADSC, counts: DskCounts) -> (c: DskFetchCall)
    ensures
        c.handle == handle,
        c.dladsc == dladsc,
        c.start == 1,
        c.room == counts.np,
{
    DskFetchCall { handle, dladsc, start: 1, room: counts.np }
}

/// Fetch the vertices of a type 2 DSK segment: given what `dskz02` reported
/// of the segment, derive the raw `dskv02` arguments that fetch every vertex,
/// from the first (CSPICE counts records from one) to the last.
pub fn dskv02(handle: i32, dladsc: DLADSC, counts: DskCounts) -> (c: DskFetchCall)
    ensures
        c.handle == handle,
        c.dladsc == dladsc,
        c.start == 1,
        c.room == counts.nv,
{
    DskFetchCall { handle, dladsc, start: 1, room: counts.nv }
}

/// Arguments of a raw `et2lst` call.
pub struct LocalSolarTimeCall {
    /// Ephemeris epoch, TDB seconds past J2000, carried as the bit pattern
    /// of the double precision value.
    pub et_bits: u64,
    /// SPICE integer code of the body on whose surface the time is taken.
    pub body_code: i32,
    /// Longitude of the surface point, radians, carried as the bit pattern
    /// of the double precision value.
    pub lon_bits: u64,
    /// Form of the longitude: `"PLANETOCENTRIC"` or `"PLANETOGRAPHIC"`.
    pub lon_type: String,
    /// Length of the buffer that receives the local time string.
    pub time_lenout: i32,
    /// Length of the buffer that receives the 12-hour clock string.
    pub ampm_lenout: i32,
}

/// Compute the local solar time for a given ephemeris epoch for an object on
/// the surface of a body at a specified longitude: derive the raw `et2lst`
/// arguments, with the default length for both string output buffers.
pub fn et2lst(et_bits: u64, body_code: i32, lon_bits: u64, lon_type: String) -> (c:
    LocalSolarTimeCall)
    ensures
        c.et_bits == et_bits,
        c.body_code == body_code,
        c.lon_bits == lon_bits,
        c.lon_type@ == lon_type@,
        c.time_lenout == MAX_LEN_OUT as i32,
        c.ampm_lenout == MAX_LEN_OUT as i32,
{
    LocalSolarTimeCall {
        et_bits,
        body_code,
        lon_bits,
        lon_type,
        time_lenout: MAX_LEN_OUT as i32,
        ampm_lenout: MAX_LEN_OUT as i32,
    }
}

/// Arguments of a raw `timout` call.
pub struct TimeFormatCall {
    /// Epoch to format, TDB seconds past J2000, carried as the bit pattern
    /// of the double precision value.
    pub et_bits: u64,
    /// Format picture that the output string follows.
    pub pictur: String,
    /// Length of the buffer that receives the formatted string.
    pub lenout: usize,
}

/// Convert an epoch to a character string formatted to the specifications of
/// a user's format picture: derive the raw `timout` arguments. The output
/// string follows the picture character for character, so the picture's own
/// length in bytes is the length given for the output buffer.
pub fn timout(et_bits: u64, pictur: String) -> (c: TimeFormatCall)
    ensures
        c.et_bits == et_bits,
        c.pictur@ == pictur@,
        c.lenout == vstd::utf8::encode_utf8(pictur@).len() as usize,
{
    let lenout = pictur.as_str().len();
    TimeFormatCall { et_bits, pictur, lenout }
}

/// Arguments of a raw `kdata` call.
pub struct KernelDataCall {
    /// Index of the kernel to report on, within the list of loaded kernels
    /// selected by `kind`.
    pub which: i32,
    /// Kinds of kernel to report on.
    pub kind: String,
    /// Length of the buffer that receives the kernel file name.
    pub fillen: i32,
    /// Length of the buffer that receives the kernel type.
    pub typlen: i32,
    /// Length of the buffer that receives the name of the source file.
    pub srclen: i32,
}

/// Report on a kernel loaded into the kernel pool: derive the raw `kdata`
/// arguments, with the default length for each of the three string output
/// buffers.
pub fn kdata(which: i32, kind: String) -> (c: KernelDataCall)
    ensures
        c.which == which,
        c.kind@ == kind@,
        c.fillen == MAX_LEN_OUT as i32,
        c.typlen == MAX_LEN_OUT as i32,
        c.srclen == MAX_LEN_OUT as i32,
{
    KernelDataCall {
        which,
        kind,
        fillen: MAX_LEN_OUT as i32,
        typlen: MAX_LEN_OUT as i32,
        srclen: MAX_LEN_OUT as i32,
    }
}

} // verus!
