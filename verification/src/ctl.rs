use vstd::prelude::*;

verus! {

/// Transfer-method classes a control code can select.
pub const METHOD_BUFFERED: u32 = 0;
pub const METHOD_IN_DIRECT: u32 = 1;
pub const METHOD_OUT_DIRECT: u32 = 2;
pub const METHOD_NEITHER: u32 = 3;

/// Required-access classes.
pub const FILE_ANY_ACCESS: u32 = 0;
pub const FILE_READ_ACCESS: u32 = 1;
pub const FILE_WRITE_ACCESS: u32 = 2;

/// Device-type identifier of the zero-fill device.
pub const DEVICE_ZERO: u32 = 0x8022;

/// The two control operations the zero-fill device understands. The
/// values are fixed by the wire contract below; `lemma_ioctl_values`
/// ties them to the bit-field encoding.
pub const IOCTL_ZERO_GET_STATS: u32 = 0x80222000;
pub const IOCTL_ZERO_CLEAR_STATS: u32 = 0x80222007;

/// A control code packs four bit-fields: device type in the top 16
/// bits, required access in bits 15..14, function number in bits 13..2,
/// and transfer method in the low 2 bits. Caller and driver must agree
/// on this layout bit for bit.
pub open spec fn ctl_code_spec(device_type: u32, function: u32, method: u32, access: u32) -> u32 {
    ((device_type & 0xffff) << 16) | ((access & 0x3) << 14) | ((function & 0xfff) << 2) | (
    method & 0x3)
}

/// Composes a control code from its four fields.
pub fn ctl_code(device_type: u32, function: u32, method: u32, access: u32) -> (code: u32)
    ensures
        code == ctl_code_spec(device_type, function, method, access),
{
    ((device_type & 0xffff) << 16usize) | ((access & 0x3) << 14usize) | ((function & 0xfff)
        << 2usize) | (method & 0x3)
}

/// The transfer-method class of a control code.
pub fn ctl_method(code: u32) -> (method: u32)
    ensures
        method == code & 0x3,
        method < 4,
{
    let m: u32 = code & 0x3;
    proof {
        assert(code & 0x3 < 4) by (bit_vector);
    }
    m
}

/// The function number of a control code.
pub fn ctl_function(code: u32) -> (function: u32)
    ensures
        function == (code >> 2) & 0xfff,
        function < 0x1000,
{
    let f: u32 = (code >> 2usize) & 0xfff;
    proof {
        assert((code >> 2) & 0xfff < 0x1000) by (bit_vector);
    }
    f
}

/// The required-access class of a control code.
pub fn ctl_access(code: u32) -> (access: u32)
    ensures
        access == (code >> 14) & 0x3,
        access < 4,
{
    let a: u32 = (code >> 14usize) & 0x3;
    proof {
        assert((code >> 14) & 0x3 < 4) by (bit_vector);
    }
    a
}

/// The device-type identifier of a control code.
pub fn ctl_device_type(code: u32) -> (device_type: u32)
    ensures
        device_type == code >> 16,
        device_type <= 0xffff,
{
    let d: u32 = code >> 16usize;
    proof {
        assert(code >> 16 <= 0xffff) by (bit_vector);
    }
    d
}

/// Each field of an in-range quadruple survives the round trip through
/// the packed code: the encoding loses nothing, so a caller and the
/// driver that decode it see the same operation.
pub proof fn lemma_ctl_code_round_trip(device_type: u32, function: u32, method: u32, access: u32)
    by (bit_vector)
    requires
        device_type <= 0xffff,
        function <= 0xfff,
        method <= 0x3,
        access <= 0x3,
    ensures
        ctl_code_spec(device_type, function, method, access) >> 16 == device_type,
        (ctl_code_spec(device_type, function, method, access) >> 2) & 0xfff == function,
        ctl_code_spec(device_type, function, method, access) & 0x3 == method,
        (ctl_code_spec(device_type, function, method, access) >> 14) & 0x3 == access,
{
}

/// The two published control-code constants are exactly the bit-field
/// encodings of the operations they name: function 0x800 as a buffered
/// transfer for the statistics query, function 0x801 with no buffering
/// for the reset.
pub proof fn lemma_ioctl_values()
    by (bit_vector)
    ensures
        IOCTL_ZERO_GET_STATS == ctl_code_spec(DEVICE_ZERO, 0x800, METHOD_BUFFERED, FILE_ANY_ACCESS),
        IOCTL_ZERO_CLEAR_STATS == ctl_code_spec(
            DEVICE_ZERO,
            0x801,
            METHOD_NEITHER,
            FILE_ANY_ACCESS,
        ),
{
}

} // verus!
