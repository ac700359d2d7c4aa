//! Tests of the `.mnlgxdprog` and `.mnlgxdlib` files.

use std::io::{Cursor, Read, Write};

use minilogue_xd::error::{Error, SysexError};
use minilogue_xd::sysex::program::file::{
    is_prog_entry, program_entry_order, read_lib_file, read_prog_file, write_lib_file, write_prog_file,
};
use minilogue_xd::sysex::program::{ProgramData, ProgramName};
use zip::write::SimpleFileOptions;
use zip::{ZipArchive, ZipWriter};

/// A zip archive with the given entries, written with the zip crate itself.
fn archive_of(entries: &[(&str, Vec<u8>)]) -> Vec<u8> {
    let mut buf = Cursor::new(Vec::new());
    {
        let mut zip = ZipWriter::new(&mut buf);
        let options = SimpleFileOptions::default();
        for (name, data) in entries {
            zip.start_file(*name, options).unwrap();
            zip.write_all(data).unwrap();
        }
        zip.finish().unwrap();
    }
    buf.into_inner()
}

fn program_with_cutoff(cutoff: u16) -> ProgramData {
    let mut data = ProgramData::default();
    data.synth.cutoff = cutoff;
    data
}

#[test]
fn prog_file_round_trip() {
    let mut data = ProgramData::default();
    data.synth.name = ProgramName::from_string("FileTest").unwrap();
    data.synth.cutoff = 999;

    let buf = write_prog_file(&data).unwrap();
    let recovered = read_prog_file(buf).unwrap();
    assert_eq!(recovered, data);
}

#[test]
fn prog_file_preserves_all_fields() {
    let mut data = ProgramData::default();
    data.synth.delay_on = true;
    data.synth.reverb_on = true;
    data.synth.mod_fx_on = true;
    data.sequencer.bpm = 2400;
    data.sequencer.steps[0].notes[0] = 60;
    data.sequencer.steps[0].velocities[0] = 127;

    let buf = write_prog_file(&data).unwrap();
    let recovered = read_prog_file(buf).unwrap();
    assert_eq!(recovered, data);
}

#[test]
fn lib_file_round_trip() {
    let mut programs = Vec::new();
    for i in 0..3 {
        let mut data = ProgramData::default();
        data.synth.name = ProgramName::from_string(&format!("Prog {i}")).unwrap();
        data.synth.cutoff = i as u16 * 100;
        programs.push(data);
    }

    let buf = write_lib_file(&programs).unwrap();
    let recovered = read_lib_file(buf).unwrap();
    assert_eq!(recovered.len(), 3);
    for (i, prog) in recovered.iter().enumerate() {
        assert_eq!(prog.synth.name.as_str(), format!("Prog {i}"));
        assert_eq!(prog.synth.cutoff, i as u16 * 100);
    }
}

#[test]
fn lib_file_empty() {
    let programs: Vec<ProgramData> = Vec::new();
    let buf = write_lib_file(&programs).unwrap();
    let recovered = read_lib_file(buf).unwrap();
    assert!(recovered.is_empty());
}

#[test]
fn lib_file_single_program() {
    let data = ProgramData::default();
    let buf = write_lib_file(&[data.clone()]).unwrap();
    let recovered = read_lib_file(buf).unwrap();
    assert_eq!(recovered.len(), 1);
    assert_eq!(recovered[0], data);
}

#[test]
fn read_prog_file_missing_entry() {
    // A zip without Prog_000.prog_bin.
    let buf = archive_of(&[("other.txt", b"hello".to_vec())]);
    assert!(read_prog_file(buf).is_err());
}

#[test]
fn read_prog_file_invalid_data() {
    // A zip whose Prog_000.prog_bin is too short.
    let buf = archive_of(&[("Prog_000.prog_bin", vec![0u8; 100])]);
    assert!(read_prog_file(buf).is_err());
}

#[test]
fn prog_file_holds_one_entry_with_the_blob() {
    let data = program_with_cutoff(321);
    let buf = write_prog_file(&data).unwrap();
    let mut archive = ZipArchive::new(Cursor::new(buf)).unwrap();
    assert_eq!(archive.len(), 1);
    let mut entry = archive.by_index(0).unwrap();
    assert_eq!(entry.name(), "Prog_000.prog_bin");
    let mut contents = Vec::new();
    entry.read_to_end(&mut contents).unwrap();
    assert_eq!(contents, data.to_bytes());
}

#[test]
fn lib_file_entries_and_information() {
    let programs = vec![program_with_cutoff(1), program_with_cutoff(2)];
    let buf = write_lib_file(&programs).unwrap();
    let mut archive = ZipArchive::new(Cursor::new(buf)).unwrap();
    let names: Vec<String> = (0..archive.len()).map(|i| archive.by_index(i).unwrap().name().to_string()).collect();
    assert_eq!(names, vec!["Prog_000.prog_bin", "Prog_001.prog_bin", "FileInformation.xml"]);
    let mut xml = String::new();
    archive.by_name("FileInformation.xml").unwrap().read_to_string(&mut xml).unwrap();
    assert_eq!(
        xml,
        "<?xml version=\"1.0\" encoding=\"UTF-8\"?>\n<KorgMSLibrarian_Data>\n<Product>minilogue xd</Product>\n\
         <Contents NumProgramData=\"2\"/>\n</KorgMSLibrarian_Data>\n"
    );
    let mut second = Vec::new();
    archive.by_name("Prog_001.prog_bin").unwrap().read_to_end(&mut second).unwrap();
    assert_eq!(second, programs[1].to_bytes());
}

#[test]
fn lib_file_reads_programs_in_name_order() {
    let buf = archive_of(&[
        ("Prog_002.prog_bin", program_with_cutoff(2).to_bytes()),
        ("notes.txt", b"not a program".to_vec()),
        ("Prog_000.prog_bin", program_with_cutoff(0).to_bytes()),
        ("Prog_001.prog_bin", program_with_cutoff(1).to_bytes()),
    ]);
    let recovered = read_lib_file(buf).unwrap();
    let cutoffs: Vec<u16> = recovered.iter().map(|p| p.synth.cutoff).collect();
    assert_eq!(cutoffs, vec![0, 1, 2]);
}

#[test]
fn lib_file_names_order_by_bytes() {
    // "Prog_1000" sorts before "Prog_101": byte order, not number order.
    let buf = archive_of(&[
        ("Prog_101.prog_bin", program_with_cutoff(101).to_bytes()),
        ("Prog_1000.prog_bin", program_with_cutoff(1000).to_bytes()),
    ]);
    let recovered = read_lib_file(buf).unwrap();
    let cutoffs: Vec<u16> = recovered.iter().map(|p| p.synth.cutoff).collect();
    assert_eq!(cutoffs, vec![1000, 101]);
}

#[test]
fn lib_file_short_program_gives_its_error() {
    let buf = archive_of(&[
        ("Prog_000.prog_bin", program_with_cutoff(0).to_bytes()),
        ("Prog_001.prog_bin", vec![0u8; 100]),
    ]);
    match read_lib_file(buf) {
        Err(Error::Sysex(SysexError::PayloadTooShort { expected, actual })) => {
            assert_eq!(expected, 1024);
            assert_eq!(actual, 100);
        },
        other => panic!("unexpected result: {other:?}"),
    }
}

#[test]
fn read_prog_file_not_an_archive() {
    match read_prog_file(vec![1, 2, 3]) {
        Err(Error::Zip(m)) => assert!(m.starts_with("failed to open archive: ")),
        other => panic!("unexpected result: {other:?}"),
    }
}

#[test]
fn read_prog_file_missing_entry_message() {
    let buf = archive_of(&[("other.txt", b"hello".to_vec())]);
    match read_prog_file(buf) {
        Err(Error::Zip(m)) => assert!(m.starts_with("missing Prog_000.prog_bin: ")),
        other => panic!("unexpected result: {other:?}"),
    }
}

#[test]
fn read_prog_file_short_entry_error() {
    let buf = archive_of(&[("Prog_000.prog_bin", vec![0u8; 100])]);
    match read_prog_file(buf) {
        Err(Error::Sysex(SysexError::PayloadTooShort { expected, actual })) => {
            assert_eq!(expected, 1024);
            assert_eq!(actual, 100);
        },
        other => panic!("unexpected result: {other:?}"),
    }
}

#[test]
fn program_entry_order_filters_and_sorts() {
    let names: Vec<String> = ["b.prog_bin", "FileInformation.xml", "a.prog_bin", "Prog_101.prog_bin", "Prog_1000.prog_bin", "x.prog_binx"]
        .iter()
        .map(|s| s.to_string())
        .collect();
    let order = program_entry_order(&names);
    assert_eq!(order, vec!["Prog_1000.prog_bin", "Prog_101.prog_bin", "a.prog_bin", "b.prog_bin"]);
}

#[test]
fn program_entry_order_empty() {
    assert!(program_entry_order(&[]).is_empty());
}

#[test]
fn prog_entry_suffix() {
    assert!(is_prog_entry("Prog_000.prog_bin"));
    assert!(is_prog_entry(".prog_bin"));
    assert!(!is_prog_entry("prog_bin"));
    assert!(!is_prog_entry("FileInformation.xml"));
}
