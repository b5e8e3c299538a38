use fixed_buffer::{escape_ascii, FixedBuf, ReadWriteChain, ReadWriteTake};

fn err1() -> std::io::Error {
    std::io::Error::new(std::io::ErrorKind::Other, "err1")
}

/// Returns the queued results in order; a successful read fills the buffer
/// with the next letters of the alphabet.
struct FakeReadWriter {
    results: Vec<Result<usize, std::io::Error>>,
    next_byte: u8,
}

impl FakeReadWriter {
    fn new(results: Vec<Result<usize, std::io::Error>>) -> Self {
        Self { results, next_byte: b'a' }
    }

    fn empty() -> Self {
        Self::new(Vec::new())
    }

    fn is_empty(&self) -> bool {
        self.results.is_empty()
    }
}

impl std::io::Read for FakeReadWriter {
    fn read(&mut self, buf: &mut [u8]) -> Result<usize, std::io::Error> {
        if self.results.is_empty() {
            panic!("unexpected read");
        }
        let result = self.results.remove(0);
        if let Ok(num_read) = result {
            for dest in buf[0..num_read].iter_mut() {
                *dest = self.next_byte;
                self.next_byte = if self.next_byte == b'z' { b'a' } else { self.next_byte + 1 };
            }
        }
        result
    }
}

impl std::io::Write for FakeReadWriter {
    fn write(&mut self, _buf: &[u8]) -> Result<usize, std::io::Error> {
        if self.results.is_empty() {
            panic!("unexpected write");
        }
        self.results.remove(0)
    }

    fn flush(&mut self) -> Result<(), std::io::Error> {
        Ok(())
    }
}

/// Reads through a chain the way its `std::io::Read` impl does.
fn chain_read<R: std::io::Read, RW: std::io::Read + std::io::Write>(
    chain: &mut ReadWriteChain<R, RW>,
    buf: &mut [u8],
) -> Result<usize, std::io::Error> {
    if let Some(reader) = chain.reader() {
        let num_read = reader.read(buf)?;
        if !chain.reader_returned(num_read) {
            return Ok(num_read);
        }
    }
    chain.read_writer().read(buf)
}

/// Reads through a take the way its `std::io::Read` impl does.
fn take_read<RW: std::io::Read + std::io::Write>(
    take: &mut ReadWriteTake<RW>,
    buf: &mut [u8],
) -> Result<usize, std::io::Error> {
    let num_to_read = match take.read_limit(buf.len()) {
        None => return Ok(0),
        Some(n) => n,
    };
    let num_read = take.read_writer().read(&mut buf[0..num_to_read])?;
    take.record_read(num_read);
    Ok(num_read)
}

#[test]
fn read_write_chain_both_empty() {
    let mut reader = std::io::Cursor::new(b"");
    let mut read_writer: FixedBuf<8> = FixedBuf::empty([0u8; 8]);
    let mut chain = ReadWriteChain::new(&mut reader, &mut read_writer);
    let mut buf = [b'.'; 8];
    assert_eq!(0, chain_read(&mut chain, &mut buf).unwrap());
    assert_eq!("........", escape_ascii(&buf));
}

#[test]
fn read_write_chain_doesnt_read_second_when_first_has_data() {
    let mut reader = std::io::Cursor::new(b"abc");
    let mut read_writer = FakeReadWriter::empty();
    let mut chain = ReadWriteChain::new(&mut reader, &mut read_writer);
    let mut buf = [b'.'; 4];
    assert_eq!(3, chain_read(&mut chain, &mut buf).unwrap());
    assert_eq!("abc.", escape_ascii(&buf));
}

#[test]
fn read_write_chain_doesnt_read_second_when_first_returns_error() {
    let mut reader = FakeReadWriter::new(vec![Err(err1()), Err(err1())]);
    let mut read_writer = FakeReadWriter::empty();
    let mut chain = ReadWriteChain::new(&mut reader, &mut read_writer);
    let mut buf = [b'.'; 4];
    let err = chain_read(&mut chain, &mut buf).unwrap_err();
    assert_eq!(std::io::ErrorKind::Other, err.kind());
    assert_eq!("err1", err.to_string());
    assert_eq!("....", escape_ascii(&buf));
    chain_read(&mut chain, &mut buf).unwrap_err();
}

#[test]
fn read_write_chain_reads_second_when_first_empty() {
    let mut reader = std::io::Cursor::new(b"");
    let mut read_writer: FixedBuf<4> = FixedBuf::empty([0u8; 4]);
    read_writer.write_str("abc").unwrap();
    let mut chain = ReadWriteChain::new(&mut reader, &mut read_writer);
    let mut buf = [b'.'; 4];
    assert_eq!(3, chain_read(&mut chain, &mut buf).unwrap());
    assert_eq!("abc.", escape_ascii(&buf));
}

#[test]
fn read_write_chain_reads_first_then_second() {
    let mut reader = std::io::Cursor::new(b"ab");
    let mut read_writer: FixedBuf<4> = FixedBuf::empty([0u8; 4]);
    read_writer.write_str("cd").unwrap();
    let mut chain = ReadWriteChain::new(&mut reader, &mut read_writer);
    let mut buf = [b'.'; 4];
    assert_eq!(2, chain_read(&mut chain, &mut buf).unwrap());
    assert_eq!("ab..", escape_ascii(&buf));
    assert_eq!(2, chain_read(&mut chain, &mut buf).unwrap());
    assert_eq!("cd..", escape_ascii(&buf));
}

#[test]
fn read_write_chain_returns_error_from_second() {
    let mut reader = std::io::Cursor::new(b"");
    let mut read_writer = FakeReadWriter::new(vec![Err(err1()), Err(err1())]);
    let mut chain = ReadWriteChain::new(&mut reader, &mut read_writer);
    let mut buf = [b'.'; 4];
    let err = chain_read(&mut chain, &mut buf).unwrap_err();
    assert_eq!(std::io::ErrorKind::Other, err.kind());
    assert_eq!("err1", err.to_string());
    assert_eq!("....", escape_ascii(&buf));
    chain_read(&mut chain, &mut buf).unwrap_err();
}

#[test]
fn read_write_chain_passes_writes_through() {
    let mut reader = std::io::Cursor::new(b"");
    let mut read_writer: FixedBuf<4> = FixedBuf::empty([0u8; 4]);
    let mut chain = ReadWriteChain::new(&mut reader, &mut read_writer);
    assert_eq!(
        3,
        std::io::Write::write(chain.read_writer(), b"abc").unwrap()
    );
    assert_eq!("abc", read_writer.escape_ascii());
}

#[test]
fn read_write_take_read_error() {
    let mut read_writer = FakeReadWriter::new(vec![Err(err1()), Ok(2), Ok(0)]);
    let mut take = ReadWriteTake::new(&mut read_writer, 3);
    let mut buf = [b'.'; 4];
    assert_eq!(
        "err1",
        take_read(&mut take, &mut buf).unwrap_err().to_string()
    );
    assert_eq!(2, take_read(&mut take, &mut buf).unwrap());
    assert_eq!("ab..", escape_ascii(&buf));
    assert_eq!(0, take_read(&mut take, &mut buf).unwrap());
    assert_eq!("ab..", escape_ascii(&buf));
}

#[test]
fn read_write_take_empty() {
    let mut read_writer = FakeReadWriter::new(vec![Ok(0)]);
    let mut take = ReadWriteTake::new(&mut read_writer, 3);
    let mut buf = [b'.'; 4];
    assert_eq!(0, take_read(&mut take, &mut buf).unwrap());
    assert_eq!("....", escape_ascii(&buf));
}

#[test]
fn read_write_take_doesnt_read_when_zero() {
    let mut read_writer = FakeReadWriter::empty();
    let mut take = ReadWriteTake::new(&mut read_writer, 0);
    let mut buf = [b'.'; 4];
    assert_eq!(0, take_read(&mut take, &mut buf).unwrap());
    assert_eq!("....", escape_ascii(&buf));
}

#[test]
fn read_write_take_fewer_than_len() {
    let mut read_writer = FakeReadWriter::new(vec![Ok(2), Ok(0)]);
    let mut take = ReadWriteTake::new(&mut read_writer, 3);
    let mut buf = [b'.'; 4];
    assert_eq!(2, take_read(&mut take, &mut buf).unwrap());
    assert_eq!("ab..", escape_ascii(&buf));
    assert_eq!(0, take_read(&mut take, &mut buf).unwrap());
    assert_eq!("ab..", escape_ascii(&buf));
}

#[test]
fn read_write_take_fewer_than_len_in_multiple_reads() {
    let mut read_writer = FakeReadWriter::new(vec![Ok(2), Ok(2), Ok(0)]);
    let mut take = ReadWriteTake::new(&mut read_writer, 5);
    let mut buf = [b'.'; 4];
    assert_eq!(2, take_read(&mut take, &mut buf).unwrap());
    assert_eq!("ab..", escape_ascii(&buf));
    assert_eq!(2, take_read(&mut take, &mut buf).unwrap());
    assert_eq!("cd..", escape_ascii(&buf));
    assert_eq!(0, take_read(&mut take, &mut buf).unwrap());
    assert_eq!("cd..", escape_ascii(&buf));
}

#[test]
fn read_write_take_exactly_len() {
    let mut read_writer = FakeReadWriter::new(vec![Ok(3), Ok(0)]);
    let mut take = ReadWriteTake::new(&mut read_writer, 3);
    let mut buf = [b'.'; 4];
    assert_eq!(3, take_read(&mut take, &mut buf).unwrap());
    assert_eq!("abc.", escape_ascii(&buf));
    assert_eq!(0, take_read(&mut take, &mut buf).unwrap());
    assert_eq!("abc.", escape_ascii(&buf));
}

#[test]
fn read_write_take_exactly_len_in_multiple_reads() {
    let mut read_writer = FakeReadWriter::new(vec![Ok(2), Ok(1), Ok(0)]);
    let mut take = ReadWriteTake::new(&mut read_writer, 3);
    let mut buf = [b'.'; 4];
    assert_eq!(2, take_read(&mut take, &mut buf).unwrap());
    assert_eq!("ab..", escape_ascii(&buf));
    assert_eq!(1, take_read(&mut take, &mut buf).unwrap());
    assert_eq!("cb..", escape_ascii(&buf));
    assert_eq!(0, take_read(&mut take, &mut buf).unwrap());
    assert_eq!("cb..", escape_ascii(&buf));
}

#[test]
fn read_write_take_doesnt_call_read_after_len_reached() {
    let mut read_writer = FakeReadWriter::new(vec![Ok(3)]);
    let mut take = ReadWriteTake::new(&mut read_writer, 3);
    let mut buf = [b'.'; 4];
    assert_eq!(3, take_read(&mut take, &mut buf).unwrap());
    assert_eq!("abc.", escape_ascii(&buf));
    assert_eq!(0, take_read(&mut take, &mut buf).unwrap());
    assert_eq!("abc.", escape_ascii(&buf));
}

#[test]
fn read_write_take_doesnt_call_read_after_len_reached_in_multiple_reads() {
    let mut read_writer = FakeReadWriter::new(vec![Ok(2), Ok(1)]);
    let mut take = ReadWriteTake::new(&mut read_writer, 3);
    let mut buf = [b'.'; 4];
    assert_eq!(2, take_read(&mut take, &mut buf).unwrap());
    assert_eq!("ab..", escape_ascii(&buf));
    assert_eq!(1, take_read(&mut take, &mut buf).unwrap());
    assert_eq!("cb..", escape_ascii(&buf));
    assert_eq!(0, take_read(&mut take, &mut buf).unwrap());
    assert_eq!("cb..", escape_ascii(&buf));
}

#[test]
fn read_write_take_passes_writes_through() {
    let mut read_writer = FakeReadWriter::new(vec![Ok(3)]);
    let mut take = ReadWriteTake::new(&mut read_writer, 2);
    assert_eq!(
        3,
        std::io::Write::write(take.read_writer(), b"abc").unwrap()
    );
    assert!(read_writer.is_empty());
}

#[test]
fn read_write_take_limit_follows_remaining() {
    let mut read_writer = FakeReadWriter::empty();
    let mut take = ReadWriteTake::new(&mut read_writer, 5);
    assert_eq!(Some(4), take.read_limit(4));
    assert_eq!(Some(0), take.read_limit(0));
    take.record_read(3);
    assert_eq!(Some(2), take.read_limit(4));
    take.record_read(2);
    assert_eq!(None, take.read_limit(4));
}

#[test]
fn read_write_take_reads_add_up_to_at_most_limit() {
    let mut read_writer = FakeReadWriter::new(vec![Ok(2), Ok(2), Ok(1)]);
    let mut take = ReadWriteTake::new(&mut read_writer, 5);
    let mut buf = [b'.'; 2];
    let mut total = 0;
    loop {
        let n = take_read(&mut take, &mut buf).unwrap();
        if n == 0 {
            break;
        }
        total += n;
    }
    assert_eq!(5, total);
    assert_eq!(None, take.read_limit(2));
}

#[test]
fn read_write_chain_never_returns_to_first_after_eof() {
    let mut reader = std::io::Cursor::new(b"a");
    let mut read_writer = FakeReadWriter::new(vec![Ok(1), Ok(0)]);
    let mut chain = ReadWriteChain::new(&mut reader, &mut read_writer);
    let mut buf = [b'.'; 2];
    assert_eq!(1, chain_read(&mut chain, &mut buf).unwrap());
    assert_eq!("a.", escape_ascii(&buf));
    assert_eq!(1, chain_read(&mut chain, &mut buf).unwrap());
    assert!(chain.reader().is_none());
    assert_eq!(0, chain_read(&mut chain, &mut buf).unwrap());
    assert!(chain.reader().is_none());
}
