//! A log record and its wire format.
//!
//! On the wire a record is a length prefix followed by a body. The body holds,
//! in order: the attributes byte; the timestamp and the offset as varints; the
//! key and the value, each as the varint of its length followed by its bytes,
//! or as the varint of -1 where it is absent; and the size of the headers as a
//! varint. The prefix is the varint of the body's length in bytes.

use crate::buf::contents;
use crate::buf::put_byte;
use crate::buf::put_contents;
use crate::buf::remaining;
use crate::util::PutError;
use crate::util::VarintPut;
use crate::util::VarintSize;
use crate::varint::encoded_len;
use crate::varint::encoding;
use crate::varint::encoded_len_is_bounded;
use crate::varint::encoding_len_is_encoded_len;
use crate::varint::leading_varint;
use crate::varint::leading_varint_len;
use crate::varint::leading_varint_reads_encoding;
use bytes::Bytes;
use bytes::BytesMut;
use vstd::prelude::*;

verus! {

/// The length that stands on the wire for an absent key or value.
pub const NULL_LENGTH: i32 = -1;

/// The number of bytes that the encoding of `NULL_LENGTH` occupies.
const NULL_VARINT_SIZE: usize = 1;

/// The headers of a record. No header can be attached yet, so every value of
/// this type is empty and has size 0.
pub struct Headers;

impl Headers {
    /// The size of the headers as the wire states it.
    pub open spec fn wire_size(self) -> nat {
        0
    }

    /// The size of the headers: always 0.
    pub fn size(&self) -> (size: usize)
        ensures
            size == 0,
            size == self.wire_size(),
    {
        0
    }
}

impl Default for Headers {
    fn default() -> (headers: Headers)
        ensures
            headers == Headers,
    {
        Headers
    }
}

/// One entry of the log.
pub struct Record {
    length: i32,
    attributes: u8,
    offset: i64,
    timestamp: i64,
    sequence: i32,
    key: Option<Bytes>,
    value: Option<Bytes>,
    headers: Headers,
}

/// What a record holds, with the key and the value as the byte sequences that
/// they contain.
pub ghost struct RecordView {
    pub length: i32,
    pub attributes: u8,
    pub offset: i64,
    pub timestamp: i64,
    pub sequence: i32,
    pub key: Option<Seq<u8>>,
    pub value: Option<Seq<u8>>,
    pub headers: Headers,
}

/// The wire form of a key or a value: the varint of its length and then its
/// bytes, or the varint of `NULL_LENGTH` where it is absent.
pub open spec fn field_bytes(field: Option<Seq<u8>>) -> Seq<u8> {
    match field {
        Some(bytes) => encoding(bytes.len() as int) + bytes,
        None => encoding(NULL_LENGTH as int),
    }
}

/// The number of bytes that a key or a value takes on the wire.
pub open spec fn field_length(field: Option<Seq<u8>>) -> nat {
    match field {
        Some(bytes) => encoded_len(bytes.len() as int) + bytes.len(),
        None => encoded_len(NULL_LENGTH as int),
    }
}

impl RecordView {
    /// The record that `Record::new` makes: every number 0, no key, no value.
    pub open spec fn empty() -> RecordView {
        RecordView {
            length: 0,
            attributes: 0,
            offset: 0,
            timestamp: 0,
            sequence: 0,
            key: None,
            value: None,
            headers: Headers,
        }
    }

    /// The body of the record on the wire: all but the length prefix.
    pub open spec fn body_bytes(self) -> Seq<u8> {
        seq![self.attributes] + encoding(self.timestamp as int) + encoding(self.offset as int)
            + field_bytes(self.key) + field_bytes(self.value) + encoding(
            self.headers.wire_size() as int,
        )
    }

    /// The number of bytes of the body.
    pub open spec fn body_length(self) -> nat {
        1 + encoded_len(self.offset as int) + encoded_len(self.timestamp as int) + field_length(
            self.key,
        ) + field_length(self.value) + encoded_len(self.headers.wire_size() as int)
    }

    /// The record on the wire: the varint of the body's length, then the body.
    pub open spec fn wire_bytes(self) -> Seq<u8> {
        encoding(self.body_length() as int) + self.body_bytes()
    }

    /// The number of bytes of the record on the wire, length prefix included.
    pub open spec fn wire_length(self) -> nat {
        encoded_len(self.body_length() as int) + self.body_length()
    }

    /// Whether the record can be written: its body length is both a `usize` and
    /// a non-negative signed 64-bit integer, as which it goes on the wire.
    pub open spec fn writable(self) -> bool {
        self.body_length() <= usize::MAX && self.body_length() <= i64::MAX
    }
}

impl View for Record {
    type V = RecordView;

    closed spec fn view(&self) -> RecordView {
        RecordView {
            length: self.length,
            attributes: self.attributes,
            offset: self.offset,
            timestamp: self.timestamp,
            sequence: self.sequence,
            key: match self.key {
                Some(key) => Some(contents(key)),
                None => None,
            },
            value: match self.value {
                Some(value) => Some(contents(value)),
                None => None,
            },
            headers: self.headers,
        }
    }
}

impl Default for Record {
    fn default() -> (record: Record)
        ensures
            record@ == RecordView::empty(),
    {
        Record {
            length: 0,
            attributes: 0,
            offset: 0,
            timestamp: 0,
            sequence: 0,
            key: None,
            value: None,
            headers: Headers,
        }
    }
}

/// The number of bytes that a key or a value takes on the wire.
fn field_size(field: &Option<Bytes>) -> (size: usize)
    requires
        match field {
            Some(bytes) => encoded_len(contents(*bytes).len() as int) + contents(*bytes).len()
                <= usize::MAX,
            None => true,
        },
    ensures
        match field {
            Some(bytes) => size == field_length(Some(contents(*bytes))),
            None => size == field_length(None),
        },
{
    match field {
        Some(bytes) => bytes.len() + bytes.len().varint_size(),
        None => NULL_VARINT_SIZE,
    }
}

/// The number of bytes that a key or a value takes on the wire, or `None`
/// where that number is beyond `usize`.
fn checked_field_size(field: &Option<Bytes>) -> (size: Option<usize>)
    ensures
        match (size, field) {
            (Some(size), Some(bytes)) => size == field_length(Some(contents(*bytes))),
            (Some(size), None) => size == field_length(None),
            (None, Some(bytes)) => field_length(Some(contents(*bytes))) > usize::MAX,
            (None, None) => false,
        },
{
    match field {
        Some(bytes) => bytes.len().checked_add(bytes.len().varint_size()),
        None => Some(NULL_VARINT_SIZE),
    }
}

/// Writes a key or a value: the varint of its length and its bytes, or the
/// varint of `NULL_LENGTH` where it is absent.
fn put_field(buf: &mut BytesMut, field: Option<Bytes>)
    requires
        match field {
            Some(bytes) => contents(bytes).len() <= i64::MAX && old(buf).room() >= field_length(
                Some(contents(bytes)),
            ),
            None => old(buf).room() >= field_length(None),
        },
    ensures
        match field {
            Some(bytes) => final(buf).written() == old(buf).written() + field_bytes(
                Some(contents(bytes)),
            ) && final(buf).room() == old(buf).room() - field_length(Some(contents(bytes))),
            None => final(buf).written() == old(buf).written() + field_bytes(None)
                && final(buf).room() == old(buf).room() - field_length(None),
        },
{
    let ghost start = buf.written();
    if let Some(bytes) = field {
        buf.put_usize_varint(bytes.len());
        put_contents(buf, bytes);
        assert(buf.written() =~= start + (encoding(contents(bytes).len() as int) + contents(
            bytes,
        )));
    } else {
        buf.put_i32_varint(NULL_LENGTH);
    }
}

impl Record {
    /// A record with every number 0, no key and no value.
    pub fn new() -> (record: Record)
        ensures
            record@ == RecordView::empty(),
    {
        Default::default()
    }

    /// The stored length. No operation sets it: it is what the record was made
    /// with, and is not the body length.
    pub fn length(&self) -> (length: i32)
        ensures
            length == self@.length,
    {
        self.length
    }

    /// The attributes byte.
    pub fn attributes(&self) -> (attributes: u8)
        ensures
            attributes == self@.attributes,
    {
        self.attributes
    }

    /// The offset of the record in the log.
    pub fn offset(&self) -> (offset: i64)
        ensures
            offset == self@.offset,
    {
        self.offset
    }

    /// The timestamp of the record.
    pub fn timestamp(&self) -> (timestamp: i64)
        ensures
            timestamp == self@.timestamp,
    {
        self.timestamp
    }

    /// The sequence number of the record. It does not go on the wire.
    pub fn sequence(&self) -> (sequence: i32)
        ensures
            sequence == self@.sequence,
    {
        self.sequence
    }

    /// The key, if the record has one.
    pub fn key(&self) -> (key: Option<&Bytes>)
        ensures
            match key {
                Some(bytes) => self@.key == Some(contents(*bytes)),
                None => self@.key is None,
            },
    {
        self.key.as_ref()
    }

    /// The value, if the record has one.
    pub fn value(&self) -> (value: Option<&Bytes>)
        ensures
            match value {
                Some(bytes) => self@.value == Some(contents(*bytes)),
                None => self@.value is None,
            },
    {
        self.value.as_ref()
    }

    /// The headers of the record.
    pub fn headers(&self) -> (headers: &Headers)
        ensures
            *headers == self@.headers,
    {
        &self.headers
    }

    /// The same record with these attributes.
    pub fn with_attributes(self, attributes: u8) -> (record: Record)
        ensures
            record@ == (RecordView { attributes, ..self@ }),
    {
        Record { attributes, ..self }
    }

    /// The same record at this offset.
    pub fn with_offset(self, offset: i64) -> (record: Record)
        ensures
            record@ == (RecordView { offset, ..self@ }),
    {
        Record { offset, ..self }
    }

    /// The same record with this timestamp.
    pub fn with_timestamp(self, timestamp: i64) -> (record: Record)
        ensures
            record@ == (RecordView { timestamp, ..self@ }),
    {
        Record { timestamp, ..self }
    }

    /// The same record with this sequence number.
    pub fn with_sequence(self, sequence: i32) -> (record: Record)
        ensures
            record@ == (RecordView { sequence, ..self@ }),
    {
        Record { sequence, ..self }
    }

    /// The same record with this key, which may be empty.
    pub fn with_key(self, key: Bytes) -> (record: Record)
        ensures
            record@ == (RecordView { key: Some(contents(key)), ..self@ }),
    {
        Record { key: Some(key), ..self }
    }

    /// The same record with this value, which may be empty.
    pub fn with_value(self, value: Bytes) -> (record: Record)
        ensures
            record@ == (RecordView { value: Some(contents(value)), ..self@ }),
    {
        Record { value: Some(value), ..self }
    }

    /// The same record with these headers.
    pub fn with_headers(self, headers: Headers) -> (record: Record)
        ensures
            record@ == (RecordView { headers, ..self@ }),
    {
        Record { headers, ..self }
    }

    /// The number of bytes that the body of the record takes on the wire. It
    /// is a function of what the record holds: asked again of the same record,
    /// it is the same number.
    pub fn body_length(&self) -> (size: usize)
        requires
            self@.body_length() <= usize::MAX,
        ensures
            size == self@.body_length(),
    {
        let mut size: usize = 1;  // always one byte for attributes
        size += self.offset.varint_size();
        size += self.timestamp.varint_size();
        size += field_size(&self.key);
        size += field_size(&self.value);
        size += self.headers.size().varint_size();
        size
    }

    /// The number of bytes that the body of the record takes on the wire, or
    /// `None` where that number is beyond `usize`.
    pub fn checked_body_length(&self) -> (size: Option<usize>)
        ensures
            match size {
                Some(size) => size == self@.body_length(),
                None => self@.body_length() > usize::MAX,
            },
    {
        let offset: usize = self.offset.varint_size();
        let timestamp: usize = self.timestamp.varint_size();
        let headers: usize = self.headers.size().varint_size();
        proof {
            encoded_len_is_bounded(self.offset as int);
            encoded_len_is_bounded(self.timestamp as int);
        }
        let fixed: usize = 1 + offset + timestamp + headers;
        let key: usize = match checked_field_size(&self.key) {
            Some(size) => size,
            None => { return None; },
        };
        let value: usize = match checked_field_size(&self.value) {
            Some(size) => size,
            None => { return None; },
        };
        match key.checked_add(value) {
            Some(fields) => fields.checked_add(fixed),
            None => None,
        }
    }

    /// Writes the record to `buf`: the length prefix, then the body.
    pub fn put(self, buf: &mut BytesMut)
        requires
            self@.writable(),
            old(buf).room() >= self@.wire_length(),
        ensures
            final(buf).written() == old(buf).written() + self@.wire_bytes(),
            final(buf).room() == old(buf).room() - self@.wire_length(),
    {
        let ghost start = buf.written();
        let ghost prefix = encoding(self@.body_length() as int);
        let ghost attributes = seq![self@.attributes];
        let ghost timestamp = encoding(self@.timestamp as int);
        let ghost offset = encoding(self@.offset as int);
        let ghost key = field_bytes(self@.key);
        let ghost value = field_bytes(self@.value);
        let ghost headers = encoding(self@.headers.wire_size() as int);
        proof {
            encoding_len_is_encoded_len(self@.body_length() as int);
            encoding_len_is_encoded_len(self@.timestamp as int);
            encoding_len_is_encoded_len(self@.offset as int);
            encoding_len_is_encoded_len(self@.headers.wire_size() as int);
            field_bytes_len_is_field_length(self@.key);
            field_bytes_len_is_field_length(self@.value);
        }
        let length = self.body_length();
        buf.put_usize_varint(length);
        put_byte(buf, self.attributes);
        buf.put_i64_varint(self.timestamp);
        buf.put_i64_varint(self.offset);
        assert(buf.written() =~= start + prefix + attributes + timestamp + offset);
        put_field(buf, self.key);
        put_field(buf, self.value);
        buf.put_usize_varint(self.headers.size());
        assert(buf.written() == start + prefix + attributes + timestamp + offset + key + value
            + headers);
        assert(start + prefix + attributes + timestamp + offset + key + value + headers =~= start
            + (prefix + (attributes + timestamp + offset + key + value + headers)));
    }

    /// Writes the record to `buf` if it can be written and `buf` has room for all
    /// of it, and leaves `buf` as it is otherwise.
    pub fn try_put(self, buf: &mut BytesMut) -> (done: Result<(), PutError>)
        ensures
            done is Ok <==> self@.writable() && old(buf).room() >= self@.wire_length(),
            done is Ok ==> final(buf).written() == old(buf).written() + self@.wire_bytes()
                && final(buf).room() == old(buf).room() - self@.wire_length(),
            done == Err::<(), PutError>(PutError::TooLong) <==> !self@.writable(),
            done is Err ==> final(buf).written() == old(buf).written() && final(buf).room()
                == old(buf).room(),
    {
        let free: usize = remaining(buf);
        let length: usize = match self.checked_body_length() {
            Some(length) => length,
            None => { return Err(PutError::TooLong); },
        };
        if length as u64 > i64::MAX as u64 {
            return Err(PutError::TooLong);
        }
        let fits: bool = match length.checked_add(length.varint_size()) {
            Some(total) => total <= free,
            None => false,
        };
        if !fits {
            return Err(PutError::SinkFull);
        }
        self.put(buf);
        Ok(())
    }
}

/// A key or a value takes on the wire as many bytes as `field_length` says.
pub proof fn field_bytes_len_is_field_length(field: Option<Seq<u8>>)
    ensures
        field_bytes(field).len() == field_length(field),
{
    match field {
        Some(bytes) => encoding_len_is_encoded_len(bytes.len() as int),
        None => encoding_len_is_encoded_len(NULL_LENGTH as int),
    }
}

/// The body length of a record is the number of bytes of its body, and the
/// wire length the number of bytes of prefix and body together.
pub proof fn body_length_is_len_of_body(record: RecordView)
    ensures
        record.body_bytes().len() == record.body_length(),
        record.wire_bytes().len() == record.wire_length(),
{
    encoding_len_is_encoded_len(record.body_length() as int);
    encoding_len_is_encoded_len(record.timestamp as int);
    encoding_len_is_encoded_len(record.offset as int);
    encoding_len_is_encoded_len(record.headers.wire_size() as int);
    field_bytes_len_is_field_length(record.key);
    field_bytes_len_is_field_length(record.value);
}

/// The length prefix of a record on the wire counts what follows it: the
/// varint that the wire bytes start with holds the number of bytes that stand
/// behind it, and these are the bytes of the body.
pub proof fn length_prefix_counts_the_rest(record: RecordView)
    ensures
        leading_varint(record.wire_bytes()) == record.wire_bytes().len() - leading_varint_len(
            record.wire_bytes(),
        ),
        record.wire_bytes().skip(leading_varint_len(record.wire_bytes()) as int)
            == record.body_bytes(),
{
    let prefix = encoding(record.body_length() as int);
    leading_varint_reads_encoding(record.body_length() as int, record.body_bytes());
    body_length_is_len_of_body(record);
    encoding_len_is_encoded_len(record.body_length() as int);
    assert((prefix + record.body_bytes()).skip(prefix.len() as int) =~= record.body_bytes());
}


} // verus!
