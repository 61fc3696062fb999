use crate::text::{joined, ends_with, last_index_of, rfind, same_text, slice, starts_with};
use vstd::prelude::*;
use vstd::string::*;

verus! {

/// What a connection string begins with where it names a Postgres database.
pub const POSTGRES_PREFIX: &'static str = "postgres://";

/// What a connection string ends with where it names a Parquet file.
pub const PARQUET_SUFFIX: &'static str = ".parquet";

/// How a file is compressed.
#[derive(Debug, Clone, Copy, PartialEq, Eq, Structural)]
pub enum Compression {
    Gzip,
    Bzip2,
    Xz,
    Zstd,
    Uncompressed,
}

/// The format of a text file of records.
#[derive(Debug, Clone, Copy, PartialEq, Eq, Structural)]
pub enum FileKind {
    Csv,
    NdJson,
}

/// A file to read: its path, the extension that names its format, and its
/// compression.
#[derive(Debug, Clone, PartialEq, Eq)]
pub struct FileOpts {
    pub filename: String,
    pub ext: String,
    pub compression: Compression,
}

/// Where a dataset comes from.
#[derive(Debug, Clone, PartialEq, Eq)]
pub enum DatasetConn {
    Postgres(String),
    Csv(FileOpts),
    Parquet(String),
    NdJson(FileOpts),
}

/// Why a connection string was refused. Each variant holds the text that
/// was not understood.
#[derive(Debug, Clone, PartialEq, Eq)]
pub enum ConnError {
    /// The last of two extensions names no compression.
    UnsupportedCompression(String),
    /// The extension before the compression names no file format.
    UnsupportedFileType(String),
    /// The only extension names no file format.
    UnsupportedExtension(String),
    /// The path has no extension.
    InvalidPath(String),
}

/// What a `FileOpts` holds.
pub struct FileOptsView {
    pub filename: Seq<char>,
    pub ext: Seq<char>,
    pub compression: Compression,
}

/// What a `DatasetConn` holds.
pub enum DatasetConnView {
    Postgres(Seq<char>),
    Csv(FileOptsView),
    Parquet(Seq<char>),
    NdJson(FileOptsView),
}

/// What a `ConnError` holds.
pub enum ConnErrorView {
    UnsupportedCompression(Seq<char>),
    UnsupportedFileType(Seq<char>),
    UnsupportedExtension(Seq<char>),
    InvalidPath(Seq<char>),
}

impl View for FileOpts {
    type V = FileOptsView;

    open spec fn view(&self) -> FileOptsView {
        FileOptsView { filename: self.filename@, ext: self.ext@, compression: self.compression }
    }
}

impl View for DatasetConn {
    type V = DatasetConnView;

    open spec fn view(&self) -> DatasetConnView {
        match self {
            DatasetConn::Postgres(s) => DatasetConnView::Postgres(s@),
            DatasetConn::Csv(opts) => DatasetConnView::Csv(opts@),
            DatasetConn::Parquet(s) => DatasetConnView::Parquet(s@),
            DatasetConn::NdJson(opts) => DatasetConnView::NdJson(opts@),
        }
    }
}

impl View for ConnError {
    type V = ConnErrorView;

    open spec fn view(&self) -> ConnErrorView {
        match self {
            ConnError::UnsupportedCompression(s) => ConnErrorView::UnsupportedCompression(s@),
            ConnError::UnsupportedFileType(s) => ConnErrorView::UnsupportedFileType(s@),
            ConnError::UnsupportedExtension(s) => ConnErrorView::UnsupportedExtension(s@),
            ConnError::InvalidPath(s) => ConnErrorView::InvalidPath(s@),
        }
    }
}

/// The compression that an extension names: `gz`, `bz2`, `xz` or `zst`.
pub open spec fn compression_spec(ext: Seq<char>) -> Option<Compression> {
    if ext == "gz"@ {
        Some(Compression::Gzip)
    } else if ext == "bz2"@ {
        Some(Compression::Bzip2)
    } else if ext == "xz"@ {
        Some(Compression::Xz)
    } else if ext == "zst"@ {
        Some(Compression::Zstd)
    } else {
        None
    }
}

/// The file format that an extension names: `csv` for CSV, and `json`,
/// `jsonl` or `ndjson` for newline-delimited JSON.
pub open spec fn file_kind_spec(ext: Seq<char>) -> Option<FileKind> {
    if ext == "csv"@ {
        Some(FileKind::Csv)
    } else if ext == "json"@ || ext == "jsonl"@ || ext == "ndjson"@ {
        Some(FileKind::NdJson)
    } else {
        None
    }
}

/// The connection to a file of the given format.
pub open spec fn file_conn_spec(kind: FileKind, opts: FileOptsView) -> DatasetConnView {
    match kind {
        FileKind::Csv => DatasetConnView::Csv(opts),
        FileKind::NdJson => DatasetConnView::NdJson(opts),
    }
}

/// What a connection string means.
///
/// A string that begins with `postgres://` names a database, and one that
/// ends with `.parquet` a Parquet file. Every other string is a path whose
/// parts are split at its dots. Without a dot it is refused. With one dot
/// the part behind it names the file format. With more the last part names
/// the compression and the part before it the file format.
pub open spec fn parse_spec(s: Seq<char>) -> Result<DatasetConnView, ConnErrorView> {
    if POSTGRES_PREFIX@.is_prefix_of(s) {
        Ok(DatasetConnView::Postgres(s))
    } else if PARQUET_SUFFIX@.is_suffix_of(s) {
        Ok(DatasetConnView::Parquet(s))
    } else {
        match last_index_of(s, '.') {
            None => Err(ConnErrorView::InvalidPath(s)),
            Some(last) => {
                let ext1 = s.subrange(last + 1, s.len() as int);
                match last_index_of(s.take(last), '.') {
                    None => match file_kind_spec(ext1) {
                        Some(kind) => Ok(
                            file_conn_spec(
                                kind,
                                FileOptsView {
                                    filename: s,
                                    ext: ext1,
                                    compression: Compression::Uncompressed,
                                },
                            ),
                        ),
                        None => Err(ConnErrorView::UnsupportedExtension(ext1)),
                    },
                    Some(before) => {
                        let ext2 = s.subrange(before + 1, last);
                        match compression_spec(ext1) {
                            None => Err(ConnErrorView::UnsupportedCompression(ext1)),
                            Some(compression) => match file_kind_spec(ext2) {
                                Some(kind) => Ok(
                                    file_conn_spec(
                                        kind,
                                        FileOptsView { filename: s, ext: ext2, compression },
                                    ),
                                ),
                                None => Err(ConnErrorView::UnsupportedFileType(ext2)),
                            },
                        }
                    },
                }
            },
        }
    }
}

/// Reads the compression that an extension names.
pub fn compression_of(ext: &str) -> (c: Option<Compression>)
    ensures
        c == compression_spec(ext@),
{
    if same_text(ext, "gz") {
        Some(Compression::Gzip)
    } else if same_text(ext, "bz2") {
        Some(Compression::Bzip2)
    } else if same_text(ext, "xz") {
        Some(Compression::Xz)
    } else if same_text(ext, "zst") {
        Some(Compression::Zstd)
    } else {
        None
    }
}

/// Reads the file format that an extension names.
pub fn file_kind_of(ext: &str) -> (kind: Option<FileKind>)
    ensures
        kind == file_kind_spec(ext@),
{
    if same_text(ext, "csv") {
        Some(FileKind::Csv)
    } else if same_text(ext, "json") || same_text(ext, "jsonl") || same_text(ext, "ndjson") {
        Some(FileKind::NdJson)
    } else {
        None
    }
}

/// The connection to a file of the given format.
fn file_conn(kind: FileKind, opts: FileOpts) -> (conn: DatasetConn)
    ensures
        conn@ == file_conn_spec(kind, opts@),
{
    match kind {
        FileKind::Csv => DatasetConn::Csv(opts),
        FileKind::NdJson => DatasetConn::NdJson(opts),
    }
}

/// Reads a connection string.
pub fn verify_conn_str(s: &str) -> (out: Result<DatasetConn, ConnError>)
    ensures
        match out {
            Ok(conn) => parse_spec(s@) == Ok::<DatasetConnView, ConnErrorView>(conn@),
            Err(e) => parse_spec(s@) == Err::<DatasetConnView, ConnErrorView>(e@),
        },
{
    if starts_with(s, POSTGRES_PREFIX) {
        return Ok(DatasetConn::Postgres(String::from_str(s)));
    }
    if ends_with(s, PARQUET_SUFFIX) {
        return Ok(DatasetConn::Parquet(String::from_str(s)));
    }
    let len = s.unicode_len();
    assert(s@.take(len as int) =~= s@);
    let last = match rfind(s, len, '.') {
        None => {
            return Err(ConnError::InvalidPath(String::from_str(s)));
        },
        Some(last) => last,
    };
    let ext1 = slice(s, last + 1, len);
    match rfind(s, last, '.') {
        None => match file_kind_of(ext1.as_str()) {
            Some(kind) => Ok(
                file_conn(
                    kind,
                    FileOpts {
                        filename: String::from_str(s),
                        ext: ext1,
                        compression: Compression::Uncompressed,
                    },
                ),
            ),
            None => Err(ConnError::UnsupportedExtension(ext1)),
        },
        Some(before) => {
            let ext2 = slice(s, before + 1, last);
            match compression_of(ext1.as_str()) {
                None => Err(ConnError::UnsupportedCompression(ext1)),
                Some(compression) => match file_kind_of(ext2.as_str()) {
                    Some(kind) => Ok(
                        file_conn(
                            kind,
                            FileOpts { filename: String::from_str(s), ext: ext2, compression },
                        ),
                    ),
                    None => Err(ConnError::UnsupportedFileType(ext2)),
                },
            }
        },
    }
}

impl ConnError {
    /// What the error says to the user.
    pub open spec fn spec_message(self) -> Seq<char> {
        match self {
            ConnError::UnsupportedCompression(v) => "Unsupported compression type: "@ + v@,
            ConnError::UnsupportedFileType(v) => "Unsupported file type: "@ + v@,
            ConnError::UnsupportedExtension(v) => "Unsupported file extension: "@ + v@,
            ConnError::InvalidPath(v) => "Invalid file path: "@ + v@,
        }
    }

    /// What the error says to the user.
    pub fn message(&self) -> (text: String)
        ensures
            text@ == self.spec_message(),
    {
        match self {
            ConnError::UnsupportedCompression(v) => joined(
                "Unsupported compression type: ",
                v.as_str(),
            ),
            ConnError::UnsupportedFileType(v) => joined("Unsupported file type: ", v.as_str()),
            ConnError::UnsupportedExtension(v) => joined(
                "Unsupported file extension: ",
                v.as_str(),
            ),
            ConnError::InvalidPath(v) => joined("Invalid file path: ", v.as_str()),
        }
    }
}

/// Options of the `connect` command: where the dataset comes from, the
/// table to read where that is a database, and the name to register it
/// under.
#[derive(Debug)]
pub struct ConnectOpts {
    pub conn: DatasetConn,
    pub table: Option<String>,
    pub name: String,
}

impl ConnectOpts {
    pub fn new(conn: DatasetConn, table: Option<String>, name: String) -> (opts: Self)
        ensures
            opts.conn == conn,
            opts.table == table,
            opts.name == name,
    {
        Self { conn, table, name }
    }

    /// What the user is told once the dataset is registered.
    pub fn connected_message(&self) -> (text: String)
        ensures
            text@ == "Connected to dataset: "@ + self.name@,
    {
        joined("Connected to dataset: ", self.name.as_str())
    }
}

} // verus!
