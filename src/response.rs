//! The raw file response: deciding between "not modified" and a full
//! response, and the headers and body that a full response carries.
use vstd::prelude::*;
use vstd::string::*;

use crate::etag::{
    deref_option, etag_matches, etag_text, opaque_tag_of, CacheValidator, ClientValidator,
};
use crate::text::{
    component_encoding, decimal, encode_component_to_string, u64_to_string,
};

verus! {

/// Where a stored file's bytes come from: a buffer already in memory, or a
/// stream `S` that the storage backend produces piece by piece.
pub enum FileData<S> {
    Buffer(Vec<u8>),
    Stream(S),
}

/// A file as the file center returns it: its metadata and its data.
pub struct FileRecord<S> {
    /// The stored name; it may be empty.
    pub file_name: String,
    /// The MIME type, as text.
    pub mime_type: String,
    /// The declared size in bytes.
    pub file_size: u64,
    /// Whether the file has an expiration time.
    pub temporary: bool,
    pub file_data: FileData<S>,
}

/// One response header.
pub struct Header {
    pub name: String,
    pub value: String,
}

impl View for Header {
    type V = (Seq<char>, Seq<char>);

    open spec fn view(&self) -> (Seq<char>, Seq<char>) {
        (self.name@, self.value@)
    }
}

/// The body of a full response: its length is known either way.
pub enum ResponseBody<S> {
    Sized(Vec<u8>),
    Streamed(S),
}

/// What is sent back: an empty "not modified", or a full response.
pub enum RawResponse<S> {
    NotModified,
    Full { headers: Vec<Header>, body: ResponseBody<S> },
}

/// The response for raw data out of the file center, with an optional
/// `ETag`. Without a file it stands for "not modified".
pub struct FileCenterRawResponse<S> {
    pub etag: Option<CacheValidator>,
    pub file: Option<(Option<String>, FileRecord<S>)>,
}

/// A lookup that still needs the file: what the response will carry once
/// the file center has answered.
pub struct PendingFetch {
    pub etag: Option<CacheValidator>,
    pub file_name: Option<String>,
}

/// The first step of answering a request by object ID: either the response
/// is ready (a cache hit), or the file must be fetched.
pub enum Lookup<S> {
    Ready(FileCenterRawResponse<S>),
    Fetch(PendingFetch),
}

/// The "not modified" response.
pub open spec fn not_modified_spec<S>() -> FileCenterRawResponse<S> {
    FileCenterRawResponse { etag: None, file: None }
}

/// The response that carries `record`.
pub open spec fn full_spec<S>(
    etag: Option<CacheValidator>,
    record: FileRecord<S>,
    file_name: Option<String>,
) -> FileCenterRawResponse<S> {
    FileCenterRawResponse { etag, file: Some((file_name, record)) }
}

/// The first step for a request with validator `client`, when the server's
/// validator is `etag`: a hit never asks for the file.
pub open spec fn lookup_spec<S>(
    client: Option<ClientValidator>,
    etag: Option<CacheValidator>,
    file_name: Option<String>,
) -> Lookup<S> {
    if etag_matches(client, etag) {
        Lookup::Ready(not_modified_spec())
    } else {
        Lookup::Fetch(PendingFetch { etag, file_name })
    }
}

/// The result once the file center has answered `fetched`: its error is
/// passed on, a missing file gives `None`.
pub open spec fn complete_spec<S, E>(
    pending: PendingFetch,
    fetched: Result<Option<FileRecord<S>>, E>,
) -> Result<Option<FileCenterRawResponse<S>>, E> {
    match fetched {
        Ok(Some(record)) => Ok(Some(full_spec(pending.etag, record, pending.file_name))),
        Ok(None) => Ok(None),
        Err(e) => Err(e),
    }
}

/// The name shown to the client: the override when it is there and not
/// empty, else the stored name.
pub open spec fn display_name<S>(file_name: Option<String>, record: FileRecord<S>) -> Seq<char> {
    if file_name.is_some() && file_name.unwrap()@.len() > 0 {
        file_name.unwrap()@
    } else {
        record.file_name@
    }
}

/// The byte count of the body: the buffer's length, or the declared size of
/// a stream.
pub open spec fn content_length<S>(record: FileRecord<S>) -> nat {
    match record.file_data {
        FileData::Buffer(v) => v@.len(),
        FileData::Stream(_) => record.file_size as nat,
    }
}

/// The headers of a full response, in order: `Etag` when there is a server
/// validator, `Content-Disposition` when the display name is not empty,
/// then `Content-Type` and `Content-Length`.
pub open spec fn full_headers<S>(
    etag: Option<CacheValidator>,
    file_name: Option<String>,
    record: FileRecord<S>,
) -> Seq<(Seq<char>, Seq<char>)> {
    let tag_header = match etag {
        Some(v) => seq![("Etag"@, etag_text(v@.0, v@.1))],
        None => Seq::empty(),
    };
    let name = display_name(file_name, record);
    let disposition = if name.len() == 0 {
        Seq::empty()
    } else {
        seq![("Content-Disposition"@, "inline; filename*=UTF-8''"@ + component_encoding(name))]
    };
    tag_header + disposition + seq![
        ("Content-Type"@, record.mime_type@),
        ("Content-Length"@, decimal(content_length(record))),
    ]
}

/// The body that a file's data becomes.
pub open spec fn body_spec<S>(data: FileData<S>) -> ResponseBody<S> {
    match data {
        FileData::Buffer(v) => ResponseBody::Sized(v),
        FileData::Stream(s) => ResponseBody::Streamed(s),
    }
}

/// `r` is what `resp` turns into: "not modified" without a file, else the
/// full headers and the body of the file's data.
pub open spec fn responds_with<S>(resp: FileCenterRawResponse<S>, r: RawResponse<S>) -> bool {
    match resp.file {
        None => r is NotModified,
        Some((file_name, record)) => match r {
            RawResponse::Full { headers, body } => {
                &&& headers@.map_values(|h: Header| h@) == full_headers(resp.etag, file_name, record)
                &&& body == body_spec(record.file_data)
            },
            RawResponse::NotModified => false,
        },
    }
}

/// Two records that the file center could return for one unchanged file:
/// the same name, type and size, and a body of the same kind and length.
pub open spec fn same_metadata<S>(a: FileRecord<S>, b: FileRecord<S>) -> bool {
    &&& a.file_name@ == b.file_name@
    &&& a.mime_type@ == b.mime_type@
    &&& a.file_size == b.file_size
    &&& content_length(a) == content_length(b)
    &&& (a.file_data is Buffer <==> b.file_data is Buffer)
}

/// Answering the same request twice, with the same client validator, server
/// validator and name override, against an unchanged file: both times the
/// first step is the same (a cache hit both times, or a fetch both times),
/// and both full responses carry the same headers and the same kind of body.
pub proof fn lemma_materialize_idempotent<S>(
    client: Option<ClientValidator>,
    etag: Option<CacheValidator>,
    file_name: Option<String>,
    first: FileRecord<S>,
    second: FileRecord<S>,
    r1: RawResponse<S>,
    r2: RawResponse<S>,
)
    requires
        same_metadata(first, second),
        responds_with(full_spec(etag, first, file_name), r1),
        responds_with(full_spec(etag, second, file_name), r2),
    ensures
        lookup_spec::<S>(client, etag, file_name) is Ready <==> etag_matches(client, etag),
        r1 is Full && r2 is Full,
        r1->headers@.map_values(|h: Header| h@) == r2->headers@.map_values(|h: Header| h@),
        r1->body is Sized <==> r2->body is Sized,
{
    assert(display_name(file_name, first) == display_name(file_name, second));
}

impl PendingFetch {
    /// Finish the lookup with what the file center returned for the ID.
    pub fn complete<S, E>(self, fetched: Result<Option<FileRecord<S>>, E>) -> (r: Result<
        Option<FileCenterRawResponse<S>>,
        E,
    >)
        ensures
            r == complete_spec(self, fetched),
    {
        match fetched {
            Ok(Some(record)) => Ok(
                Some(FileCenterRawResponse::from_file_item(self.etag, record, self.file_name)),
            ),
            Ok(None) => Ok(None),
            Err(e) => Err(e),
        }
    }
}

impl<S> FileCenterRawResponse<S> {
    /// The "not modified" response.
    pub fn not_modified() -> (r: Self)
        ensures
            r == not_modified_spec::<S>(),
    {
        FileCenterRawResponse { etag: None, file: None }
    }

    /// A response that carries `file_item`, shown under `file_name` when
    /// that is given and not empty.
    pub fn from_file_item(
        etag: Option<CacheValidator>,
        file_item: FileRecord<S>,
        file_name: Option<String>,
    ) -> (r: Self)
        ensures
            r == full_spec(etag, file_item, file_name),
    {
        FileCenterRawResponse { etag, file: Some((file_name, file_item)) }
    }

    /// Start answering a request for a file by its object ID: when the
    /// client's validator matches `etag` the response is ready and the file
    /// is not fetched; otherwise the file must be fetched.
    pub fn from_object_id(
        client_etag: Option<&ClientValidator>,
        etag: Option<CacheValidator>,
        file_name: Option<String>,
    ) -> (r: Lookup<S>)
        ensures
            r == lookup_spec::<S>(deref_option(client_etag), etag, file_name),
    {
        let is_etag_match = crate::etag::is_etag_match(client_etag, etag.as_ref());
        if is_etag_match {
            Lookup::Ready(Self::not_modified())
        } else {
            Lookup::Fetch(PendingFetch { etag, file_name })
        }
    }

    /// The server validator for an ID token: a weak tag that is the token
    /// itself. `None` when the token holds a character that a tag cannot.
    pub fn create_etag_by_id_token(id_token: String) -> (r: Option<CacheValidator>)
        ensures
            r.is_some() <==> opaque_tag_of(id_token@).is_some(),
            r.is_some() ==> r.unwrap()@ == (true, opaque_tag_of(id_token@).unwrap()),
    {
        CacheValidator::with_string(true, id_token)
    }

    /// Start answering a request for a file by its ID token, which always
    /// carries the token's validator. `None` when the token cannot be a tag.
    pub fn from_id_token(
        client_etag: &ClientValidator,
        id_token: String,
        file_name: Option<String>,
    ) -> (r: Option<Lookup<S>>)
        ensures
            r.is_some() <==> opaque_tag_of(id_token@).is_some(),
            r.is_some() ==> exists|v: CacheValidator|
                #![trigger v@]
                v@ == (true, opaque_tag_of(id_token@).unwrap()) && r == Some(
                    lookup_spec::<S>(Some(*client_etag), Some(v), file_name),
                ),
    {
        match Self::create_etag_by_id_token(id_token) {
            Some(etag) => Some(Self::from_object_id(Some(client_etag), Some(etag), file_name)),
            None => None,
        }
    }

    /// Turn the response into what is sent: "not modified" without a body
    /// or headers, or the headers and the body of the file.
    pub fn respond(self) -> (r: RawResponse<S>)
        ensures
            responds_with(self, r),
    {
        let FileCenterRawResponse { etag, file } = self;
        match file {
            None => RawResponse::NotModified,
            Some((file_name, record)) => {
                let ghost old_record = record;
                let mut headers: Vec<Header> = Vec::new();
                match &etag {
                    Some(v) => {
                        headers.push(Header { name: String::from_str("Etag"), value: v.to_header_value() });
                    },
                    None => {},
                }
                let ghost tag_len = headers@.len();
                let name: &str = match &file_name {
                    Some(n) => if n.as_str().is_empty() {
                        record.file_name.as_str()
                    } else {
                        n.as_str()
                    },
                    None => record.file_name.as_str(),
                };
                assert(name@ == display_name(file_name, record));
                if !name.is_empty() {
                    let mut value = String::from_str("inline; filename*=UTF-8''");
                    encode_component_to_string(name, &mut value);
                    headers.push(Header { name: String::from_str("Content-Disposition"), value });
                }
                let ghost named_len = headers@.len();
                let FileRecord { file_name: _, mime_type, file_size, temporary: _, file_data } = record;
                headers.push(Header { name: String::from_str("Content-Type"), value: mime_type });
                let length: u64 = match &file_data {
                    FileData::Buffer(v) => v.len() as u64,
                    FileData::Stream(_) => file_size,
                };
                assert(length as nat == content_length(old_record));
                headers.push(Header { name: String::from_str("Content-Length"), value: u64_to_string(length) });
                let body = match file_data {
                    FileData::Buffer(v) => ResponseBody::Sized(v),
                    FileData::Stream(g) => ResponseBody::Streamed(g),
                };
                assert(headers@.map_values(|h: Header| h@) =~= full_headers(etag, file_name, old_record));
                RawResponse::Full { headers, body }
            },
        }
    }

    /// Whether the file is temporary; `None` for "not modified".
    pub fn is_temporary(&self) -> (r: Option<bool>)
        ensures
            r == match self.file {
                Some((_, record)) => Some(record.temporary),
                None => None,
            },
    {
        match &self.file {
            Some((_, record)) => Some(record.temporary),
            None => None,
        }
    }
}

} // verus!
