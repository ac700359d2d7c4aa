//! Size of serialized program data.

use minilogue_xd::sysex::program::ProgramData;

#[test]
fn program_data_size_is_1024() {
    assert_eq!(ProgramData::SIZE, 1024);

    let data = ProgramData::default();
    let bytes = data.to_bytes();
    assert_eq!(bytes.len(), 1024);
}
