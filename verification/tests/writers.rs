use n64_systemtest::rsp::dmem_writer::SPMEMWriter as WrappingWriter;
use n64_systemtest::rsp::spmem_writer::SPMEMWriter;

#[test]
fn wrapping_writer_aligns_and_wraps() {
    let mut w = WrappingWriter::new(0x1FFB);
    assert_eq!(w.offset(), 0x1FF8);
    w.write(1);
    w.write(2);
    w.write(3);
    assert_eq!(w.writes().clone(), vec![(0x1FF8, 1), (0x1FFC, 2), (0, 3)]);
    assert_eq!(w.offset(), 4);
    assert_eq!(WrappingWriter::new(0x2010).offset(), 0x10);
}

#[test]
fn plain_writer_moves_by_words() {
    let mut w = SPMEMWriter::new(0x100);
    w.write(0xAAAA_AAAA);
    w.write(0x5555_5555);
    assert_eq!(w.writes().clone(), vec![(0x100, 0xAAAA_AAAA), (0x104, 0x5555_5555)]);
}
