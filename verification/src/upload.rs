//! Taking in an upload: the name it is stored under, the options a client
//! may send with it, and what is done and answered once the request has been
//! read.

use vstd::prelude::*;
use vstd::string::StringExecFns;
use rand::Rng;
use crate::config::Opt;
use crate::error::WebError;
use crate::helpers::{
    filename_path, is_safe_name, sanitize, sanitized_name, spec_filename_path,
    spec_thumbnail_filename_path, thumbnail_filename_path,
};
use crate::status::{OK, SEE_OTHER};
use crate::text::str_equal;

verus! {

/// The generator of random numbers that each thread keeps; nothing is known
/// of its state.
#[verifier::external_type_specification]
#[verifier::external_body]
pub struct ExThreadRng(rand::rngs::ThreadRng);

/// Why a text could not be read as a URL; nothing is read from it.
#[verifier::external_type_specification]
#[verifier::external_body]
pub struct ExParseError(url::ParseError);

/// A URL as the `url` crate holds it; it is read only as text.
#[verifier::external_type_specification]
#[verifier::external_body]
pub struct ExUrl(url::Url);

/// `rand::thread_rng` hands out the calling thread's generator, which the
/// operating system seeds on first use. Nothing is claimed of it.
pub assume_specification[ rand::thread_rng ]() -> (rng: rand::rngs::ThreadRng);

/// The extension that `std::path::Path::extension` finds in `filename`: the
/// part of its last component behind that component's last dot, if it has
/// one that is not its first character.
pub uninterp spec fn path_extension(filename: Seq<char>) -> Option<Seq<char>>;

/// The URL that `url::Url::parse` reads from `text`; `None` where it reads
/// none.
pub uninterp spec fn parsed_url(text: Seq<char>) -> Option<url::Url>;

/// The URL that `url::Url::join` makes of `reference` on `base`; `None`
/// where it makes none.
pub uninterp spec fn url_joined(base: url::Url, reference: Seq<char>) -> Option<url::Url>;

/// The text of `url`, as the conversion of a `url::Url` into a `String`
/// gives it.
pub uninterp spec fn url_text(url: url::Url) -> Seq<char>;

/// The text of the URL that `reference` gives on the base URL written as
/// `base`: `base` read as a URL, `reference` joined to it, and the outcome
/// written out. There is none where `base` is no URL or `reference` cannot
/// be joined to it.
pub open spec fn joined_url(base: Seq<char>, reference: Seq<char>) -> Option<Seq<char>> {
    match parsed_url(base) {
        Some(root) => match url_joined(root, reference) {
            Some(url) => Some(url_text(url)),
            None => None,
        },
        None => None,
    }
}

/// A digit or a letter of the ASCII alphabet.
pub open spec fn is_alphanumeric(c: char) -> bool {
    let code = c as u32;
    ||| 0x30 <= code <= 0x39
    ||| 0x41 <= code <= 0x5a
    ||| 0x61 <= code <= 0x7a
}

/// Length of the random part of a file name.
pub const TOKEN_LEN: usize = 8;

/// A random name: eight characters, each a digit or an ASCII letter.
pub open spec fn is_token(token: Seq<char>) -> bool {
    &&& token.len() == TOKEN_LEN
    &&& forall|i: int| 0 <= i < token.len() ==> is_alphanumeric(#[trigger] token[i])
}

/// `token`, followed by a dot and the extension where there is one.
pub open spec fn with_extension(token: Seq<char>, extension: Option<Seq<char>>) -> Seq<char> {
    match extension {
        Some(ext) => token + seq!['.'] + ext,
        None => token,
    }
}

/// A name made of a random token and `extension`.
pub open spec fn is_random_filename(name: Seq<char>, extension: Option<Seq<char>>) -> bool {
    &&& name.len() >= TOKEN_LEN
    &&& is_token(name.subrange(0, TOKEN_LEN as int))
    &&& name == with_extension(name.subrange(0, TOKEN_LEN as int), extension)
}

/// Calls `rand::Rng::sample` with `rand::distributions::Alphanumeric`.
///
/// Trusted: that the byte drawn is one of `A`-`Z`, `a`-`z` and `0`-`9`, the
/// 62 bytes the distribution picks from. Which of them it is depends on the
/// generator, so nothing more is said.
#[verifier::external_body]
fn sample_alphanumeric(rng: &mut rand::rngs::ThreadRng) -> (byte: u8)
    ensures
        is_alphanumeric(byte as char),
{
    rng.sample(rand::distributions::Alphanumeric)
}

/// Calls `String::push`.
///
/// Trusted: that the text afterwards is the text before with `c` at its end.
#[verifier::external_body]
fn push_char(text: &mut String, c: char)
    ensures
        final(text)@ == old(text)@.push(c),
{
    text.push(c)
}

/// Calls `std::path::Path::extension` on `filename` as a path.
///
/// Trusted: that the extension is a function of the text alone. It is part
/// of a text, so handing it back as text loses nothing.
#[verifier::external_body]
pub(crate) fn get_extension_from_filename(filename: &str) -> (extension: Option<&str>)
    ensures
        extension is Some <==> path_extension(filename@) is Some,
        extension matches Some(ext) ==> path_extension(filename@) == Some(ext@),
{
    std::path::Path::new(filename).extension().and_then(|ext| ext.to_str())
}

/// Calls `url::Url::parse`.
///
/// Trusted: that the outcome is a function of the text alone.
#[verifier::external_body]
fn parse_url(text: &str) -> (parsed: Result<url::Url, url::ParseError>)
    ensures
        parsed is Ok <==> parsed_url(text@) is Some,
        parsed matches Ok(url) ==> parsed_url(text@) == Some(url),
{
    url::Url::parse(text)
}

/// Calls `url::Url::join`.
///
/// Trusted: that the outcome is a function of the base URL and the text
/// alone.
#[verifier::external_body]
fn join_url(base: &url::Url, reference: &str) -> (joined: Result<url::Url, url::ParseError>)
    ensures
        joined is Ok <==> url_joined(*base, reference@) is Some,
        joined matches Ok(url) ==> url_joined(*base, reference@) == Some(url),
{
    base.join(reference)
}

/// Calls the conversion of a `url::Url` into a `String`, which hands out
/// the text that the URL holds.
///
/// Trusted: that the text is a function of the URL alone.
#[verifier::external_body]
fn url_into_string(url: url::Url) -> (text: String)
    ensures
        text@ == url_text(url),
{
    String::from(url)
}

/// The value that `redirect` takes where a client does not send it.
pub fn default_as_true() -> (value: bool)
    ensures
        value,
{
    true
}

/// What a client may ask for along with a file.
#[derive(Clone, Copy, Debug, PartialEq, Eq, Structural)]
pub struct Options {
    /// Store the file under the name the client gave it, not a random one.
    pub use_original_filename: bool,
    /// Answer with a redirect to the stored file.
    pub redirect: bool,
}

impl Default for Options {
    /// A random name, and a redirect.
    fn default() -> (options: Options)
        ensures
            options == (Options { use_original_filename: false, redirect: true }),
    {
        Options { use_original_filename: false, redirect: default_as_true() }
    }
}

/// Eight random characters, each a digit or an ASCII letter.
pub fn random_token() -> (token: String)
    ensures
        is_token(token@),
{
    let mut rng = rand::thread_rng();
    let mut token = String::new();
    let mut i: usize = 0;
    while i < TOKEN_LEN
        invariant
            i <= TOKEN_LEN,
            token@.len() == i,
            forall|k: int| 0 <= k < token@.len() ==> is_alphanumeric(#[trigger] token@[k]),
        decreases TOKEN_LEN - i,
    {
        let byte = sample_alphanumeric(&mut rng);
        push_char(&mut token, byte as char);
        i = i + 1;
    }
    token
}

/// `token`, followed by a dot and `extension` where there is one.
pub fn filename_with_extension(token: String, extension: Option<&str>) -> (name: String)
    ensures
        name@ == with_extension(
            token@,
            match extension {
                Some(ext) => Some(ext@),
                None => None,
            },
        ),
{
    match extension {
        Some(ext) => {
            proof {
                reveal_strlit(".");
                assert("."@ =~= seq!['.']);
            }
            token.concat(".").concat(ext)
        },
        None => token,
    }
}

/// A fresh random name for an upload: eight random characters, each a digit
/// or an ASCII letter, then a dot and `extension` where there is one.
pub fn generate_random_filename(extension: Option<&str>) -> (name: String)
    ensures
        is_random_filename(
            name@,
            match extension {
                Some(ext) => Some(ext@),
                None => None,
            },
        ),
{
    let token = random_token();
    let ghost t = token@;
    let name = filename_with_extension(token, extension);
    assert(name@.subrange(0, TOKEN_LEN as int) =~= t);
    name
}

/// The public URL of the stored file called `filename`: the name resolved
/// against the configured server URL. Fails with `InvalidUrl` where the
/// server URL or the name resolved on it is not a URL.
pub fn public_path(filename: &str, opt: &Opt) -> (url: Result<String, WebError>)
    ensures
        match url {
            Ok(text) => joined_url(opt.server_url@, filename@) == Some(text@),
            Err(error) => error == WebError::InvalidUrl && joined_url(opt.server_url@, filename@)
                is None,
        },
{
    match parse_url(opt.server_url.as_str()) {
        Ok(root) => match join_url(&root, filename) {
            Ok(url) => Ok(url_into_string(url)),
            Err(_) => Err(WebError::InvalidUrl),
        },
        Err(_) => Err(WebError::InvalidUrl),
    }
}

/// Which part of an upload a field of the request is.
#[derive(Clone, Copy, Debug, PartialEq, Eq, Structural)]
pub enum FieldKind {
    /// The file itself.
    File,
    /// The options that go with it.
    Options,
    /// Anything else; it is passed over.
    Other,
}

/// The part that a field called `name` is.
pub open spec fn spec_classify_field(name: Option<Seq<char>>) -> FieldKind {
    match name {
        Some(text) => if text == "file"@ {
            FieldKind::File
        } else if text == "options"@ {
            FieldKind::Options
        } else {
            FieldKind::Other
        },
        None => FieldKind::Other,
    }
}

/// Tells which part of an upload a field is, by its name: `file` is the
/// file, `options` the options, and every other field, named or not, is
/// passed over.
pub fn classify_field(name: Option<&str>) -> (kind: FieldKind)
    ensures
        kind == spec_classify_field(
            match name {
                Some(text) => Some(text@),
                None => None,
            },
        ),
{
    match name {
        Some(text) => {
            if str_equal(text, "file") {
                FieldKind::File
            } else if str_equal(text, "options") {
                FieldKind::Options
            } else {
                FieldKind::Other
            }
        },
        None => FieldKind::Other,
    }
}

/// A file part as it is being received.
#[derive(Clone, Debug, PartialEq, Eq)]
pub struct FileUpload {
    /// The name the client gave the file.
    pub original_filename: String,
    /// The random name it is first stored under.
    pub random_filename: String,
    /// The path of the file with the random name.
    pub random_filename_path: String,
}

/// A [`FileUpload`] as a mathematical value.
pub struct FileUploadView {
    pub original_filename: Seq<char>,
    pub random_filename: Seq<char>,
    pub random_filename_path: Seq<char>,
}

impl View for FileUpload {
    type V = FileUploadView;

    open spec fn view(&self) -> FileUploadView {
        FileUploadView {
            original_filename: self.original_filename@,
            random_filename: self.random_filename@,
            random_filename_path: self.random_filename_path@,
        }
    }
}

/// The body of the answer to an upload.
#[derive(Clone, Debug, PartialEq, Eq)]
pub struct UploadResponse {
    /// The public URL of the stored file.
    pub url: String,
}

/// What has been read of a request so far.
#[derive(Clone, Debug, PartialEq, Eq)]
pub struct UploadState {
    /// The file part, once it has begun.
    pub file_field: Option<FileUpload>,
    /// Bytes of the file part written so far.
    pub written_bytes: usize,
    /// The options in force.
    pub options_field: Options,
}

/// An [`UploadState`] as a mathematical value.
pub struct UploadStateView {
    pub file_field: Option<FileUploadView>,
    pub written_bytes: usize,
    pub options_field: Options,
}

impl View for UploadState {
    type V = UploadStateView;

    open spec fn view(&self) -> UploadStateView {
        UploadStateView {
            file_field: match self.file_field {
                Some(file) => Some(file@),
                None => None,
            },
            written_bytes: self.written_bytes,
            options_field: self.options_field,
        }
    }
}

/// What the reader of a request reports.
#[derive(Clone, Debug, PartialEq, Eq)]
pub enum UploadEvent {
    /// A file part begins; the client calls the file `original_filename`.
    FilePart { original_filename: String },
    /// A file part begins for which the client gives no file name.
    UnnamedFilePart,
    /// `len` bytes of the file part were written.
    Chunk { len: usize },
    /// An options part was read; `parsed` holds the options, or nothing
    /// where its body was not a valid set of options.
    OptionsPart { parsed: Option<Options> },
    /// A part that is neither of the two was passed over.
    OtherPart,
    /// The request has been read to its end.
    End,
}

/// Moving a file to another name.
#[derive(Clone, Debug, PartialEq, Eq)]
pub struct Rename {
    pub from: String,
    pub to: String,
}

/// The answer to a stored upload, and the thumbnail to make of it.
#[derive(Clone, Debug, PartialEq, Eq)]
pub struct UploadReply {
    /// HTTP status code: 303 with a redirect, 200 without.
    pub status: u16,
    /// Value of the `Location` header, where the answer redirects.
    pub location: Option<String>,
    /// Body of the answer.
    pub body: UploadResponse,
    /// Path of the stored file, from which a thumbnail is to be made.
    pub thumbnail_source: String,
    /// Path at which the thumbnail is to be stored.
    pub thumbnail_target: String,
}

/// An [`UploadReply`] as a mathematical value.
pub struct UploadReplyView {
    pub status: u16,
    pub location: Option<Seq<char>>,
    pub url: Seq<char>,
    pub thumbnail_source: Seq<char>,
    pub thumbnail_target: Seq<char>,
}

impl View for UploadReply {
    type V = UploadReplyView;

    open spec fn view(&self) -> UploadReplyView {
        UploadReplyView {
            status: self.status,
            location: match self.location {
                Some(url) => Some(url@),
                None => None,
            },
            url: self.body.url@,
            thumbnail_source: self.thumbnail_source@,
            thumbnail_target: self.thumbnail_target@,
        }
    }
}

/// What to do with a file that has been received in full: first the rename,
/// if there is one, then the reply, or the failure in its place.
#[derive(Debug, PartialEq, Eq)]
pub struct UploadPlan {
    /// The move from the random name to the client's, where it was asked for.
    /// A file already stored under that name is replaced.
    pub rename: Option<Rename>,
    /// The answer, once the file has its final name.
    pub reply: Result<UploadReply, WebError>,
}

/// An [`UploadPlan`] as a mathematical value.
pub struct UploadPlanView {
    pub rename: Option<(Seq<char>, Seq<char>)>,
    pub reply: Result<UploadReplyView, WebError>,
}

impl View for UploadPlan {
    type V = UploadPlanView;

    open spec fn view(&self) -> UploadPlanView {
        UploadPlanView {
            rename: match self.rename {
                Some(rename) => Some((rename.from@, rename.to@)),
                None => None,
            },
            reply: match self.reply {
                Ok(reply) => Ok(reply@),
                Err(error) => Err(error),
            },
        }
    }
}

/// What the reader of a request is to do next.
#[derive(Debug, PartialEq, Eq)]
pub enum UploadAction {
    /// Create the file at `path` and write the chunks of the file part to
    /// it, one after the other.
    CreateFile { path: String },
    /// Read on.
    Continue,
    /// Remove the file at `remove`, if one is named, and fail with `error`.
    Fail { error: WebError, remove: Option<String> },
    /// Carry out the plan and answer.
    Finish(UploadPlan),
}

/// An [`UploadAction`] as a mathematical value.
pub enum UploadActionView {
    CreateFile { path: Seq<char> },
    Continue,
    Fail { error: WebError, remove: Option<Seq<char>> },
    Finish(UploadPlanView),
}

impl View for UploadAction {
    type V = UploadActionView;

    open spec fn view(&self) -> UploadActionView {
        match self {
            UploadAction::CreateFile { path } => UploadActionView::CreateFile { path: path@ },
            UploadAction::Continue => UploadActionView::Continue,
            UploadAction::Fail { error, remove } => UploadActionView::Fail {
                error: *error,
                remove: match remove {
                    Some(path) => Some(path@),
                    None => None,
                },
            },
            UploadAction::Finish(plan) => UploadActionView::Finish(plan@),
        }
    }
}

/// The name a file finally goes by: the client's name where the options
/// ask for it, the random name otherwise. The file is stored under the
/// sanitized form of that name, and that form is what the link names.
pub open spec fn spec_final_filename(file: FileUploadView, options: Options) -> Seq<char> {
    if options.use_original_filename {
        file.original_filename
    } else {
        file.random_filename
    }
}

/// The answer to an upload that goes by `filename`: a link on the server
/// URL to the name it is stored under, which is `filename` sanitized, a
/// redirect to the link where the options ask for one, and the paths for
/// its thumbnail. `InvalidUrl` where no link can be built.
pub open spec fn spec_reply(
    filename: Seq<char>,
    options: Options,
    base_dir: Seq<char>,
    server_url: Seq<char>,
) -> Result<UploadReplyView, WebError> {
    match joined_url(server_url, sanitized_name(filename)) {
        Some(url) => Ok(
            UploadReplyView {
                status: if options.redirect { SEE_OTHER } else { OK },
                location: if options.redirect { Some(url) } else { None },
                url,
                thumbnail_source: spec_filename_path(filename, base_dir),
                thumbnail_target: spec_thumbnail_filename_path(filename, base_dir),
            },
        ),
        None => Err(WebError::InvalidUrl),
    }
}

/// What is done at the end of a request: without a file part it is a bad
/// request; an empty file is removed and refused; any other file is moved to
/// the client's name where that was asked for, and answered.
pub open spec fn spec_finish(
    state: UploadStateView,
    base_dir: Seq<char>,
    server_url: Seq<char>,
) -> UploadActionView {
    match state.file_field {
        None => UploadActionView::Fail { error: WebError::BadRequest, remove: None },
        Some(file) => if state.written_bytes == 0 {
            UploadActionView::Fail {
                error: WebError::EmptyUpload,
                remove: Some(file.random_filename_path),
            }
        } else {
            UploadActionView::Finish(
                UploadPlanView {
                    rename: if state.options_field.use_original_filename {
                        Some(
                            (
                                file.random_filename_path,
                                spec_filename_path(file.original_filename, base_dir),
                            ),
                        )
                    } else {
                        None
                    },
                    reply: spec_reply(
                        spec_final_filename(file, state.options_field),
                        state.options_field,
                        base_dir,
                        server_url,
                    ),
                },
            )
        },
    }
}

/// The name in the link of an upload that is stored cannot lead out of the
/// storage directory: it holds no path separator and is neither `.` nor
/// `..`.
pub open spec fn link_is_safe(state: UploadStateView) -> bool {
    match state.file_field {
        Some(file) => state.written_bytes > 0 ==> is_safe_name(
            sanitized_name(spec_final_filename(file, state.options_field)),
        ),
        None => true,
    }
}

/// The options in force after an options part: those it held, or the
/// defaults where it held none that could be read.
pub open spec fn spec_options(parsed: Option<Options>) -> Options {
    match parsed {
        Some(options) => options,
        None => Options { use_original_filename: false, redirect: true },
    }
}

/// The tally of bytes written after `len` more: the sum, or the largest
/// number a tally can hold where the sum is beyond it.
pub open spec fn spec_tally(written: usize, len: usize) -> usize {
    if written + len > usize::MAX {
        usize::MAX
    } else {
        (written + len) as usize
    }
}

/// A file part that has just begun for a file the client calls `original`:
/// it has a fresh random name with the extension of `original`, and is
/// stored under that name in the storage directory.
pub open spec fn is_fresh_upload(
    file: FileUploadView,
    original: Seq<char>,
    base_dir: Seq<char>,
) -> bool {
    &&& file.original_filename == original
    &&& is_random_filename(file.random_filename, path_extension(original))
    &&& file.random_filename_path == spec_filename_path(file.random_filename, base_dir)
}

/// One step of an upload: `before` and `event` lead to `after` and `action`.
pub open spec fn upload_step(
    before: UploadStateView,
    event: UploadEvent,
    base_dir: Seq<char>,
    server_url: Seq<char>,
    after: UploadStateView,
    action: UploadActionView,
) -> bool {
    match event {
        UploadEvent::FilePart { original_filename } => {
            &&& after.file_field matches Some(file)
            &&& is_fresh_upload(file, original_filename@, base_dir)
            &&& after.written_bytes == 0
            &&& after.options_field == before.options_field
            &&& action == (UploadActionView::CreateFile { path: file.random_filename_path })
        },
        UploadEvent::UnnamedFilePart => {
            &&& after == before
            &&& action == (UploadActionView::Fail { error: WebError::BadRequest, remove: None })
        },
        UploadEvent::Chunk { len } => {
            &&& after.file_field == before.file_field
            &&& after.written_bytes == spec_tally(before.written_bytes, len)
            &&& after.options_field == before.options_field
            &&& action == UploadActionView::Continue
        },
        UploadEvent::OptionsPart { parsed } => {
            &&& after.file_field == before.file_field
            &&& after.written_bytes == before.written_bytes
            &&& after.options_field == spec_options(parsed)
            &&& action == UploadActionView::Continue
        },
        UploadEvent::OtherPart => {
            &&& after == before
            &&& action == UploadActionView::Continue
        },
        UploadEvent::End => {
            &&& after == before
            &&& action == spec_finish(before, base_dir, server_url)
            &&& link_is_safe(before)
        },
    }
}

impl UploadState {
    /// The state before anything has been read: no file, the default
    /// options.
    pub fn new() -> (state: UploadState)
        ensures
            state@ == (UploadStateView {
                file_field: None,
                written_bytes: 0,
                options_field: Options { use_original_filename: false, redirect: true },
            }),
    {
        UploadState { file_field: None, written_bytes: 0, options_field: Options::default() }
    }

    /// A file part begins: picks the random name under which the file is
    /// first stored, and returns the path at which to create it.
    pub fn begin_file(&mut self, original_filename: String, opt: &Opt) -> (path: String)
        ensures
            upload_step(
                old(self)@,
                UploadEvent::FilePart { original_filename },
                opt.base_dir@,
                opt.server_url@,
                final(self)@,
                UploadActionView::CreateFile { path: path@ },
            ),
    {
        let extension = get_extension_from_filename(original_filename.as_str());
        let random_filename = generate_random_filename(extension);
        let random_filename_path = filename_path(random_filename.as_str(), opt);
        let path = random_filename_path.clone();
        self.file_field = Some(
            FileUpload { original_filename, random_filename, random_filename_path },
        );
        self.written_bytes = 0;
        path
    }

    /// `len` more bytes of the file part were written: they are added to the
    /// tally, which stops at the largest number it can hold.
    pub fn add_chunk(&mut self, len: usize)
        ensures
            final(self)@ == (UploadStateView {
                written_bytes: spec_tally(old(self).written_bytes, len),
                ..old(self)@
            }),
    {
        self.written_bytes = self.written_bytes.saturating_add(len);
    }

    /// An options part was read: what it held replaces the options in force,
    /// and where it could not be read the defaults do.
    pub fn set_options(&mut self, parsed: Option<Options>)
        ensures
            final(self)@ == (UploadStateView {
                options_field: spec_options(parsed),
                ..old(self)@
            }),
    {
        self.options_field = match parsed {
            Some(options) => options,
            None => Options::default(),
        };
    }

    /// The request has been read to its end: says what to do with the file
    /// and what to answer.
    pub fn finish(&self, opt: &Opt) -> (action: UploadAction)
        ensures
            action@ == spec_finish(self@, opt.base_dir@, opt.server_url@),
            link_is_safe(self@),
    {
        match &self.file_field {
            None => UploadAction::Fail { error: WebError::BadRequest, remove: None },
            Some(file) => {
                if self.written_bytes == 0 {
                    UploadAction::Fail {
                        error: WebError::EmptyUpload,
                        remove: Some(file.random_filename_path.clone()),
                    }
                } else {
                    let rename = if self.options_field.use_original_filename {
                        Some(
                            Rename {
                                from: file.random_filename_path.clone(),
                                to: filename_path(file.original_filename.as_str(), opt),
                            },
                        )
                    } else {
                        None
                    };
                    let final_filename: &str = if self.options_field.use_original_filename {
                        file.original_filename.as_str()
                    } else {
                        file.random_filename.as_str()
                    };
                    let stored_name = sanitize(final_filename);
                    let reply = match public_path(stored_name.as_str(), opt) {
                        Ok(url) => Ok(
                            UploadReply {
                                status: if self.options_field.redirect {
                                    SEE_OTHER
                                } else {
                                    OK
                                },
                                location: if self.options_field.redirect {
                                    Some(url.clone())
                                } else {
                                    None
                                },
                                body: UploadResponse { url },
                                thumbnail_source: filename_path(final_filename, opt),
                                thumbnail_target: thumbnail_filename_path(final_filename, opt),
                            },
                        ),
                        Err(error) => Err(error),
                    };
                    UploadAction::Finish(UploadPlan { rename, reply })
                }
            },
        }
    }
}

/// Takes an upload one step further: given what has been read of the request
/// so far and what the reader reports next, updates the state and says what
/// the reader is to do. A file part without a file name is a bad request.
pub fn handle_upload(state: &mut UploadState, event: UploadEvent, opt: &Opt) -> (action:
    UploadAction)
    ensures
        upload_step(old(state)@, event, opt.base_dir@, opt.server_url@, final(state)@, action@),
{
    match event {
        UploadEvent::FilePart { original_filename } => {
            let path = state.begin_file(original_filename, opt);
            UploadAction::CreateFile { path }
        },
        UploadEvent::UnnamedFilePart => UploadAction::Fail {
            error: WebError::BadRequest,
            remove: None,
        },
        UploadEvent::Chunk { len } => {
            state.add_chunk(len);
            UploadAction::Continue
        },
        UploadEvent::OptionsPart { parsed } => {
            state.set_options(parsed);
            UploadAction::Continue
        },
        UploadEvent::OtherPart => UploadAction::Continue,
        UploadEvent::End => state.finish(opt),
    }
}

/// The reading of a request, step by step: `states[i]` and `events[i]` lead
/// to `states[i + 1]` and `actions[i]`.
pub open spec fn is_upload_run(
    states: Seq<UploadStateView>,
    events: Seq<UploadEvent>,
    actions: Seq<UploadActionView>,
    base_dir: Seq<char>,
    server_url: Seq<char>,
) -> bool {
    &&& states.len() == events.len() + 1
    &&& actions.len() == events.len()
    &&& forall|i: int|
        0 <= i < events.len() ==> upload_step(
            states[i],
            #[trigger] events[i],
            base_dir,
            server_url,
            states[i + 1],
            actions[i],
        )
}

/// An event that brings no byte of a file and begins no file: no file part
/// with a name, and no chunk that holds anything.
pub open spec fn brings_no_content(event: UploadEvent) -> bool {
    match event {
        UploadEvent::FilePart { .. } => false,
        UploadEvent::Chunk { len } => len == 0,
        _ => true,
    }
}

/// An event that brings content: a chunk that holds at least one byte.
pub open spec fn brings_content(event: UploadEvent) -> bool {
    event matches UploadEvent::Chunk { len } && len > 0
}

/// After a file part began at step `begin`, and as long as no other begins,
/// the file of that part stays the file of the upload; the tally stays at
/// zero as long as nothing brings content, and above zero once a chunk did.
proof fn lemma_file_is_kept(
    states: Seq<UploadStateView>,
    events: Seq<UploadEvent>,
    actions: Seq<UploadActionView>,
    base_dir: Seq<char>,
    server_url: Seq<char>,
    begin: int,
    at: int,
)
    requires
        is_upload_run(states, events, actions, base_dir, server_url),
        0 <= begin < at <= events.len(),
        events[begin] is FilePart,
        forall|i: int| begin < i < at ==> !(#[trigger] events[i] is FilePart),
    ensures
        actions[begin] is CreateFile,
        states[at].file_field matches Some(file) && file.random_filename_path
            == actions[begin]->path,
        (exists|i: int| begin < i < at && brings_content(#[trigger] events[i]))
            ==> states[at].written_bytes > 0,
        (forall|i: int| begin < i < at ==> brings_no_content(#[trigger] events[i]))
            ==> states[at].written_bytes == 0,
    decreases at - begin,
{
    if at == begin + 1 {
        assert(upload_step(
            states[begin],
            events[begin],
            base_dir,
            server_url,
            states[begin + 1],
            actions[begin],
        ));
    } else {
        lemma_file_is_kept(states, events, actions, base_dir, server_url, begin, at - 1);
        assert(!(events[at - 1] is FilePart));
        assert(upload_step(
            states[at - 1],
            events[at - 1],
            base_dir,
            server_url,
            states[at],
            actions[at - 1],
        ));
        if exists|i: int| begin < i < at && brings_content(#[trigger] events[i]) {
            let i = choose|i: int| begin < i < at && brings_content(#[trigger] events[i]);
            if i < at - 1 {
                assert(states[at - 1].written_bytes > 0);
            }
        }
    }
}

/// A file part that brings no byte is refused and leaves nothing behind:
/// whatever else the request holds behind it, at its end the upload fails
/// with `EmptyUpload`, and the file to remove is the file that was created
/// when the part began.
pub proof fn lemma_empty_upload_is_removed(
    states: Seq<UploadStateView>,
    events: Seq<UploadEvent>,
    actions: Seq<UploadActionView>,
    base_dir: Seq<char>,
    server_url: Seq<char>,
    begin: int,
)
    requires
        is_upload_run(states, events, actions, base_dir, server_url),
        0 <= begin < events.len() - 1,
        events[begin] is FilePart,
        forall|i: int| begin < i < events.len() ==> brings_no_content(#[trigger] events[i]),
        events.last() is End,
    ensures
        actions[begin] is CreateFile,
        actions.last() == (UploadActionView::Fail {
            error: WebError::EmptyUpload,
            remove: Some(actions[begin]->path),
        }),
{
    let last = events.len() - 1;
    assert forall|i: int| begin < i < last implies !(#[trigger] events[i] is FilePart) by {
        assert(brings_no_content(events[i]));
    }
    lemma_file_is_kept(states, events, actions, base_dir, server_url, begin, last);
    assert(upload_step(
        states[last],
        events[last],
        base_dir,
        server_url,
        states[last + 1],
        actions[last],
    ));
}

/// A file part that brings content is stored: where one file part begins,
/// a chunk behind it holds at least one byte and the request is read to its
/// end, the upload ends with a plan for the file that was created when the
/// part began, drawn up by the options then in force.
pub proof fn lemma_upload_with_content_is_stored(
    states: Seq<UploadStateView>,
    events: Seq<UploadEvent>,
    actions: Seq<UploadActionView>,
    base_dir: Seq<char>,
    server_url: Seq<char>,
    begin: int,
    chunk: int,
)
    requires
        is_upload_run(states, events, actions, base_dir, server_url),
        0 <= begin < chunk < events.len() - 1,
        events[begin] is FilePart,
        forall|i: int| begin < i < events.len() ==> !(#[trigger] events[i] is FilePart),
        brings_content(events[chunk]),
        events.last() is End,
    ensures
        actions[begin] is CreateFile,
        actions.last() is Finish,
        actions.last() == spec_finish(states[events.len() - 1], base_dir, server_url),
        states[events.len() - 1].file_field matches Some(file) && file.random_filename_path
            == actions[begin]->path,
{
    let last = events.len() - 1;
    lemma_file_is_kept(states, events, actions, base_dir, server_url, begin, last);
    assert(begin < chunk < last && brings_content(events[chunk]));
    assert(upload_step(
        states[last],
        events[last],
        base_dir,
        server_url,
        states[last + 1],
        actions[last],
    ));
}

/// Storing under the client's name overwrites: at the end of two uploads
/// that both ask for the client's name, and whose files the client called
/// the same, both files are moved to the same path and linked by the same
/// URL, whatever is stored there already.
pub proof fn lemma_same_name_same_place(
    first: UploadStateView,
    second: UploadStateView,
    base_dir: Seq<char>,
    server_url: Seq<char>,
)
    requires
        first.file_field is Some,
        second.file_field is Some,
        first.written_bytes > 0,
        second.written_bytes > 0,
        first.options_field.use_original_filename,
        second.options_field.use_original_filename,
        first.file_field->0.original_filename == second.file_field->0.original_filename,
    ensures
        spec_finish(first, base_dir, server_url) is Finish,
        spec_finish(second, base_dir, server_url) is Finish,
        ({
            let a = spec_finish(first, base_dir, server_url)->0;
            let b = spec_finish(second, base_dir, server_url)->0;
            &&& a.rename is Some
            &&& b.rename is Some
            &&& (a.rename->0).1 == (b.rename->0).1
            &&& (a.rename->0).1 == spec_filename_path(
                first.file_field->0.original_filename,
                base_dir,
            )
            &&& a.reply is Ok <==> b.reply is Ok
            &&& a.reply is Ok ==> a.reply->Ok_0.url == b.reply->Ok_0.url
        }),
{
}

/// The thumbnail is made of the file where the upload leaves it: of the
/// target of the move where the file is moved, and of the file created for
/// the part where it is not.
pub proof fn lemma_thumbnail_of_stored_file(
    state: UploadStateView,
    original: Seq<char>,
    base_dir: Seq<char>,
    server_url: Seq<char>,
)
    requires
        state.file_field matches Some(file) && is_fresh_upload(file, original, base_dir),
        state.written_bytes > 0,
    ensures
        spec_finish(state, base_dir, server_url) is Finish,
        ({
            let plan = spec_finish(state, base_dir, server_url)->0;
            plan.reply is Ok ==> plan.reply->Ok_0.thumbnail_source == match plan.rename {
                Some(moved) => moved.1,
                None => state.file_field->0.random_filename_path,
            }
        }),
{
}

} // verus!
