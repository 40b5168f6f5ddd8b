//! A blob storage on a local directory: each blob is kept as the file `file`
//! in a folder named by the SHA-256 digest of its content.

use vstd::prelude::*;
use crate::id::{hyphenated, is_random_v4, Uuid};
use crate::path::{join, joined_path};
use crate::storage::blob_storage::{ExistingFilePath, NonExistingFilePath};
use crate::storage::digest::{hex_lower, max_digest_input, sha256, Sha256Digester};

verus! {

/// Simple disk storage rooted at `path`.
#[derive(Debug)]
pub struct DiskStorage {
    pub path: String,
}

impl DiskStorage {
    /// A storage rooted at `path`.
    pub fn new(path: &str) -> (s: DiskStorage)
        ensures
            s.path@ == path@,
    {
        DiskStorage { path: String::from_str(path) }
    }

    /// The folder of the blob with digest `sha256`.
    pub open spec fn spec_blob_path(&self, sha256: Seq<char>) -> Seq<char> {
        blob_folder(self.path@, sha256)
    }

    /// The file that holds the blob with digest `sha256`.
    pub open spec fn spec_blob_file(&self, sha256: Seq<char>) -> Seq<char> {
        blob_file(self.path@, sha256)
    }

    /// The folder of the blob with digest `sha256`.
    pub fn get_blob_path(&self, sha256: &str) -> (p: String)
        ensures
            p@ == self.spec_blob_path(sha256@),
    {
        join(self.path.as_str(), sha256)
    }

    /// A fresh path inside the storage, named by a new random identifier, to
    /// write a file to before it is stored.
    pub fn pre_store(&self) -> (p: NonExistingFilePath)
        ensures
            exists|v: u128| is_random_v4(v) && p.spec_path() == #[trigger] self.spec_blob_path(hyphenated(v)),
    {
        let id = Uuid::new_v4();
        let name = id.to_string();
        let p = NonExistingFilePath::new(self.get_blob_path(name.as_str()));
        assert(is_random_v4(id.value) && p.spec_path() == self.spec_blob_path(hyphenated(id.value)));
        p
    }

    /// What to remove when deleting the blob with digest `digest`, given
    /// whether its folder exists: `None` (nothing to delete, the answer is
    /// `false`) when it does not, the blob's folder when it does (the answer is
    /// `true` once it is removed with its file).
    pub fn delete_target(&self, digest: &str, exists: bool) -> (t: Option<String>)
        ensures
            match t {
                None => !exists,
                Some(p) => exists && p@ == self.spec_blob_path(digest@),
            },
    {
        if !exists {
            return None;
        }
        Some(self.get_blob_path(digest))
    }

    /// The `file://` URL of the blob with digest `digest`, given whether its
    /// folder exists: the URL of the file that holds the blob.
    pub fn url_for(&self, digest: &str, exists: bool) -> (u: Option<String>)
        ensures
            match u {
                None => !exists,
                Some(s) => exists && s@ == "file://"@ + self.spec_blob_file(digest@),
            },
    {
        if !exists {
            return None;
        }
        let p = self.get_blob_path(digest);
        let f = join(p.as_str(), "file");
        let mut url = String::from_str("file://");
        url.append(f.as_str());
        Some(url)
    }

    /// Starts storing the file at `file`.
    pub fn store(&self, file: ExistingFilePath) -> (p: StoreProcedure)
        ensures
            p@ == store_start(self.path@, file.spec_path()),
    {
        StoreProcedure {
            dir: self.path.clone(),
            file,
            digester: Sha256Digester::new(),
            read: Ghost(Seq::empty()),
            read_len: 0,
            digest: String::new(),
            stage: StoreStage::ReadFile,
            failed: false,
        }
    }
}

/// The folder of the blob with digest `digest` in the storage `dir`.
pub open spec fn blob_folder(dir: Seq<char>, digest: Seq<char>) -> Seq<char> {
    joined_path(dir, digest)
}

/// The file that holds the blob with digest `digest` in the storage `dir`:
/// `file` inside the blob's folder.
pub open spec fn blob_file(dir: Seq<char>, digest: Seq<char>) -> Seq<char> {
    joined_path(blob_folder(dir, digest), "file"@)
}

/// Where a store stands.
#[derive(Copy, Clone, Debug, PartialEq, Eq)]
pub enum StoreStage {
    /// Read the file, chunk by chunk, digesting it.
    ReadFile,
    /// Look whether the blob's folder exists already.
    CheckDestination,
    /// Create the blob's folder.
    CreateFolder,
    /// Copy the file into the blob's folder.
    CopyToDestination,
    /// Remove the file handed over.
    RemoveTemporary,
    /// Answer the caller.
    Finished,
    /// The file handed over could not be removed.
    Aborted,
}

/// How the last step of a store went.
#[derive(Debug)]
pub enum StoreEvent {
    /// The next bytes read from the file; none at the end of the file.
    Chunk(Vec<u8>),
    /// Whether the blob's folder exists.
    Exists(bool),
    /// The folder creation, the copy or the removal succeeded.
    Done,
    /// The step failed with an input/output error.
    Failed,
}

/// A store event as the contracts see it.
pub enum StoreEventView {
    Chunk(Seq<u8>),
    Exists(bool),
    Done,
    Failed,
}

impl View for StoreEvent {
    type V = StoreEventView;

    open spec fn view(&self) -> StoreEventView {
        match self {
            StoreEvent::Chunk(c) => StoreEventView::Chunk(c@),
            StoreEvent::Exists(b) => StoreEventView::Exists(*b),
            StoreEvent::Done => StoreEventView::Done,
            StoreEvent::Failed => StoreEventView::Failed,
        }
    }
}

/// The state of a store, as the contracts see it.
pub struct StoreState {
    /// The storage's directory.
    pub dir: Seq<char>,
    /// The file handed over.
    pub file: Seq<char>,
    /// The bytes of the file read so far.
    pub read: Seq<u8>,
    /// The digest of the file, once it has been read to its end.
    pub digest: Seq<char>,
    pub stage: StoreStage,
    /// Whether a step failed, so that the caller gets that step's error.
    pub failed: bool,
}

/// The state a store of `file` into `dir` starts in.
pub open spec fn store_start(dir: Seq<char>, file: Seq<char>) -> StoreState {
    StoreState { dir, file, read: Seq::empty(), digest: Seq::empty(), stage: StoreStage::ReadFile, failed: false }
}

/// What the caller must do next.
#[derive(Debug)]
pub enum StoreAction {
    /// Read the next bytes of the file.
    ReadChunk { file: String },
    CheckExists { path: String },
    CreateFolder { path: String },
    Copy { from: String, to: String },
    Remove { path: String },
    /// The store succeeded and the blob has this digest.
    ReturnDigest { digest: String },
    /// The store failed: return the error of the step that failed.
    ReturnError,
    /// Stop with this message.
    Abort { message: String },
}

/// The state after a step of the store ended with `e`. Reading feeds each
/// chunk to the digest; an empty chunk ends the file and fixes the digest as
/// the lower-case hex SHA-256 of all bytes read. A blob whose folder exists
/// already is not copied again; otherwise its folder is created and the file
/// copied into it. A failed read, folder creation or copy skips to removing
/// the file handed over, which happens on every path; an event that does not
/// fit the step changes nothing.
pub open spec fn store_next(s: StoreState, e: StoreEventView) -> StoreState {
    match s.stage {
        StoreStage::ReadFile => match e {
            StoreEventView::Chunk(c) => if c.len() == 0 {
                StoreState { digest: hex_lower(sha256(s.read)), stage: StoreStage::CheckDestination, ..s }
            } else {
                StoreState { read: s.read + c, ..s }
            },
            StoreEventView::Failed => StoreState { stage: StoreStage::RemoveTemporary, failed: true, ..s },
            _ => s,
        },
        StoreStage::CheckDestination => match e {
            StoreEventView::Exists(true) => StoreState { stage: StoreStage::RemoveTemporary, ..s },
            StoreEventView::Exists(false) => StoreState { stage: StoreStage::CreateFolder, ..s },
            _ => s,
        },
        StoreStage::CreateFolder => match e {
            StoreEventView::Done => StoreState { stage: StoreStage::CopyToDestination, ..s },
            StoreEventView::Failed => StoreState { stage: StoreStage::RemoveTemporary, failed: true, ..s },
            _ => s,
        },
        StoreStage::CopyToDestination => match e {
            StoreEventView::Done => StoreState { stage: StoreStage::RemoveTemporary, ..s },
            StoreEventView::Failed => StoreState { stage: StoreStage::RemoveTemporary, failed: true, ..s },
            _ => s,
        },
        StoreStage::RemoveTemporary => match e {
            StoreEventView::Done => StoreState { stage: StoreStage::Finished, ..s },
            StoreEventView::Failed => StoreState { stage: StoreStage::Aborted, ..s },
            _ => s,
        },
        _ => s,
    }
}

/// The action `a` is the one to take in state `s`.
pub open spec fn store_action_for(s: StoreState, a: StoreAction) -> bool {
    match s.stage {
        StoreStage::ReadFile => a matches StoreAction::ReadChunk { file } && file@ == s.file,
        StoreStage::CheckDestination => a matches StoreAction::CheckExists { path } && path@ == blob_folder(
            s.dir,
            s.digest,
        ),
        StoreStage::CreateFolder => a matches StoreAction::CreateFolder { path } && path@ == blob_folder(
            s.dir,
            s.digest,
        ),
        StoreStage::CopyToDestination => a matches StoreAction::Copy { from, to } && from@ == s.file && to@
            == blob_file(s.dir, s.digest),
        StoreStage::RemoveTemporary => a matches StoreAction::Remove { path } && path@ == s.file,
        StoreStage::Finished => if s.failed {
            a is ReturnError
        } else {
            a matches StoreAction::ReturnDigest { digest } && digest@ == s.digest
        },
        StoreStage::Aborted => a matches StoreAction::Abort { message } && message@
            == "File should have been deleted."@,
    }
}

/// Storing one file: the caller performs `action()` and reports how it went
/// to `advance`.
pub struct StoreProcedure {
    dir: String,
    file: ExistingFilePath,
    digester: Sha256Digester,
    read: Ghost<Seq<u8>>,
    read_len: u64,
    digest: String,
    stage: StoreStage,
    failed: bool,
}

impl View for StoreProcedure {
    type V = StoreState;

    closed spec fn view(&self) -> StoreState {
        StoreState {
            dir: self.dir@,
            file: self.file.spec_path(),
            read: self.read@,
            digest: self.digest@,
            stage: self.stage,
            failed: self.failed,
        }
    }
}

impl StoreProcedure {
    #[verifier::type_invariant]
    spec fn inv(self) -> bool {
        &&& self.read_len == self.read@.len()
        &&& self.read_len < max_digest_input()
        &&& self.stage is ReadFile ==> self.digester.absorbed() == self.read@
        &&& (self.stage !is ReadFile && !self.failed) ==> self.digest@.len() == 64
    }

    /// How many bytes of the file have been read.
    pub fn bytes_read(&self) -> (n: u64)
        ensures
            n == self@.read.len(),
            n < max_digest_input(),
    {
        proof {
            use_type_invariant(self);
        }
        self.read_len
    }

    /// What to do now.
    pub fn action(&self) -> (a: StoreAction)
        ensures
            store_action_for(self@, a),
            a matches StoreAction::ReturnDigest { digest } ==> digest@.len() == 64,
            self@.stage is Finished ==> (a is ReturnError <==> self@.failed),
            self@.stage is Finished && !self@.failed ==> (a matches StoreAction::ReturnDigest { digest }
                && digest@ == self@.digest),
    {
        proof {
            use_type_invariant(self);
        }
        match self.stage {
            StoreStage::ReadFile => StoreAction::ReadChunk { file: String::from_str(self.file.path()) },
            StoreStage::CheckDestination => StoreAction::CheckExists {
                path: join(self.dir.as_str(), self.digest.as_str()),
            },
            StoreStage::CreateFolder => StoreAction::CreateFolder {
                path: join(self.dir.as_str(), self.digest.as_str()),
            },
            StoreStage::CopyToDestination => {
                let folder = join(self.dir.as_str(), self.digest.as_str());
                StoreAction::Copy { from: String::from_str(self.file.path()), to: join(folder.as_str(), "file") }
            },
            StoreStage::RemoveTemporary => StoreAction::Remove { path: String::from_str(self.file.path()) },
            StoreStage::Finished => if self.failed {
                StoreAction::ReturnError
            } else {
                StoreAction::ReturnDigest { digest: self.digest.clone() }
            },
            StoreStage::Aborted => StoreAction::Abort {
                message: String::from_str("File should have been deleted."),
            },
        }
    }

    /// Moves on after the current step ended with `event`. The digest of a
    /// file can only be finished while the bit length of what was read fits
    /// in 64 bits.
    pub fn advance(&mut self, event: StoreEvent)
        requires
            old(self)@.stage is ReadFile && event@ is Chunk ==> old(self)@.read.len()
                + event@->Chunk_0.len() < max_digest_input(),
        ensures
            final(self)@ == store_next(old(self)@, event@),
            final(self)@.stage !is ReadFile && !final(self)@.failed ==> final(self)@.digest.len() == 64,
    {
        proof {
            use_type_invariant(&*self);
        }
        let mut taken = StoreProcedure {
            dir: String::new(),
            file: NonExistingFilePath::new(String::new()).finalize(),
            digester: Sha256Digester::new(),
            read: Ghost(Seq::empty()),
            read_len: 0,
            digest: String::new(),
            stage: StoreStage::Finished,
            failed: true,
        };
        std::mem::swap(&mut taken, self);
        proof {
            use_type_invariant(&taken);
        }
        let ghost before = taken@;
        let StoreProcedure { dir, file, digester, read, read_len, digest, stage, failed } = taken;
        let mut digester = digester;
        let mut read = read;
        let mut read_len = read_len;
        let mut digest = digest;
        let mut stage = stage;
        let mut failed = failed;
        match stage {
            StoreStage::ReadFile => match event {
                StoreEvent::Chunk(c) => {
                    if c.len() == 0 {
                        let finished = digester;
                        digest = finished.finish();
                        digester = Sha256Digester::new();
                        stage = StoreStage::CheckDestination;
                    } else {
                        digester.absorb(c.as_slice(), c.len());
                        proof {
                            assert(c@.subrange(0, c@.len() as int) =~= c@);
                        }
                        read = Ghost(read@ + c@);
                        read_len = read_len + c.len() as u64;
                    }
                },
                StoreEvent::Failed => {
                    stage = StoreStage::RemoveTemporary;
                    failed = true;
                },
                _ => {},
            },
            StoreStage::CheckDestination => match event {
                StoreEvent::Exists(true) => {
                    stage = StoreStage::RemoveTemporary;
                },
                StoreEvent::Exists(false) => {
                    stage = StoreStage::CreateFolder;
                },
                _ => {},
            },
            StoreStage::CreateFolder => match event {
                StoreEvent::Done => {
                    stage = StoreStage::CopyToDestination;
                },
                StoreEvent::Failed => {
                    stage = StoreStage::RemoveTemporary;
                    failed = true;
                },
                _ => {},
            },
            StoreStage::CopyToDestination => match event {
                StoreEvent::Done => {
                    stage = StoreStage::RemoveTemporary;
                },
                StoreEvent::Failed => {
                    stage = StoreStage::RemoveTemporary;
                    failed = true;
                },
                _ => {},
            },
            StoreStage::RemoveTemporary => match event {
                StoreEvent::Done => {
                    stage = StoreStage::Finished;
                },
                StoreEvent::Failed => {
                    stage = StoreStage::Aborted;
                },
                _ => {},
            },
            _ => {},
        }
        *self = StoreProcedure { dir, file, digester, read, read_len, digest, stage, failed };
        proof {
            use_type_invariant(&*self);
        }
    }

    /// Whether the caller has been answered or the store stopped.
    pub fn is_over(&self) -> (b: bool)
        ensures
            b == (self@.stage is Finished || self@.stage is Aborted),
    {
        match self.stage {
            StoreStage::Finished | StoreStage::Aborted => true,
            _ => false,
        }
    }
}

/// All the chunks, one after the other.
pub open spec fn concat_chunks(chunks: Seq<Seq<u8>>) -> Seq<u8>
    decreases chunks.len(),
{
    if chunks.len() == 0 {
        Seq::empty()
    } else {
        concat_chunks(chunks.drop_last()) + chunks.last()
    }
}

/// The state after reading the given chunks, in order.
pub open spec fn feed(s: StoreState, chunks: Seq<Seq<u8>>) -> StoreState
    decreases chunks.len(),
{
    if chunks.len() == 0 {
        s
    } else {
        store_next(feed(s, chunks.drop_last()), StoreEventView::Chunk(chunks.last()))
    }
}

/// Reading a file in nonempty chunks gathers its bytes and changes nothing
/// else.
pub proof fn reading_gathers_the_bytes(s: StoreState, chunks: Seq<Seq<u8>>)
    requires
        s.stage is ReadFile,
        forall|i: int| 0 <= i < chunks.len() ==> (#[trigger] chunks[i]).len() > 0,
    ensures
        feed(s, chunks) == (StoreState { read: s.read + concat_chunks(chunks), ..s }),
    decreases chunks.len(),
{
    if chunks.len() == 0 {
        assert(s.read + Seq::<u8>::empty() =~= s.read);
    } else {
        let init = chunks.drop_last();
        assert forall|i: int| 0 <= i < init.len() implies (#[trigger] init[i]).len() > 0 by {
            assert(init[i] == chunks[i]);
        }
        reading_gathers_the_bytes(s, init);
        assert(chunks[chunks.len() - 1].len() > 0);
        assert(s.read + concat_chunks(init) + chunks.last() =~= s.read + concat_chunks(chunks));
    }
}

/// A store returns the lower-case hex SHA-256 of the file's bytes: reading a
/// file in nonempty chunks and then reaching its end fixes the digest as that
/// of everything read, whatever the chunks were.
pub proof fn store_digest_is_sha256_of_file(dir: Seq<char>, file: Seq<char>, chunks: Seq<Seq<u8>>)
    requires
        forall|i: int| 0 <= i < chunks.len() ==> (#[trigger] chunks[i]).len() > 0,
    ensures
        ({
            let s = store_next(feed(store_start(dir, file), chunks), StoreEventView::Chunk(Seq::empty()));
            &&& s.stage == StoreStage::CheckDestination
            &&& s.digest == hex_lower(sha256(concat_chunks(chunks)))
            &&& s.read == concat_chunks(chunks)
            &&& s.dir == dir && s.file == file
            &&& !s.failed
        }),
{
    reading_gathers_the_bytes(store_start(dir, file), chunks);
    assert(Seq::<u8>::empty() + concat_chunks(chunks) =~= concat_chunks(chunks));
}

/// The digest does not depend on how the file was cut into chunks.
pub proof fn store_digest_ignores_chunking(
    dir: Seq<char>,
    file: Seq<char>,
    chunks1: Seq<Seq<u8>>,
    chunks2: Seq<Seq<u8>>,
)
    requires
        forall|i: int| 0 <= i < chunks1.len() ==> (#[trigger] chunks1[i]).len() > 0,
        forall|i: int| 0 <= i < chunks2.len() ==> (#[trigger] chunks2[i]).len() > 0,
        concat_chunks(chunks1) == concat_chunks(chunks2),
    ensures
        store_next(feed(store_start(dir, file), chunks1), StoreEventView::Chunk(Seq::empty())).digest
            == store_next(feed(store_start(dir, file), chunks2), StoreEventView::Chunk(Seq::empty())).digest,
{
    store_digest_is_sha256_of_file(dir, file, chunks1);
    store_digest_is_sha256_of_file(dir, file, chunks2);
}

/// Storing the same bytes again, from any file and in any chunks, gives the
/// same digest and looks at the same folder; when that folder exists the
/// blob is not copied again, the file handed over is removed and the same
/// digest is returned.
pub proof fn storing_again_returns_the_same_digest(
    dir: Seq<char>,
    file1: Seq<char>,
    chunks1: Seq<Seq<u8>>,
    file2: Seq<char>,
    chunks2: Seq<Seq<u8>>,
)
    requires
        forall|i: int| 0 <= i < chunks1.len() ==> (#[trigger] chunks1[i]).len() > 0,
        forall|i: int| 0 <= i < chunks2.len() ==> (#[trigger] chunks2[i]).len() > 0,
        concat_chunks(chunks1) == concat_chunks(chunks2),
    ensures
        ({
            let first = store_next(feed(store_start(dir, file1), chunks1), StoreEventView::Chunk(Seq::empty()));
            let second = store_next(feed(store_start(dir, file2), chunks2), StoreEventView::Chunk(Seq::empty()));
            let skipped = store_next(second, StoreEventView::Exists(true));
            let done = store_next(skipped, StoreEventView::Done);
            &&& second.digest == first.digest
            &&& blob_folder(second.dir, second.digest) == blob_folder(first.dir, first.digest)
            &&& skipped.stage == StoreStage::RemoveTemporary
            &&& done.stage == StoreStage::Finished && !done.failed && done.digest == first.digest
        }),
{
    store_digest_is_sha256_of_file(dir, file1, chunks1);
    store_digest_is_sha256_of_file(dir, file2, chunks2);
}

/// A store answers its caller only after removing the file handed over: the
/// only step that leads to the answer is the removal.
pub proof fn store_answers_after_removal(s: StoreState, e: StoreEventView)
    requires
        s.stage !is Finished,
        store_next(s, e).stage is Finished,
    ensures
        s.stage is RemoveTemporary,
{
}

/// A store never changes the storage, the file handed over, or a fixed
/// digest, and a failure is never forgotten.
pub proof fn store_keeps_its_inputs(s: StoreState, e: StoreEventView)
    ensures
        store_next(s, e).dir == s.dir,
        store_next(s, e).file == s.file,
        s.stage !is ReadFile ==> store_next(s, e).digest == s.digest,
        s.failed ==> store_next(s, e).failed,
{
}

/// The steps of a store that succeeds once the file has been read: for a
/// blob not stored yet, create its folder, copy the file into it, remove the
/// file, return the digest; for a blob stored already the folder and the copy
/// are left out.
pub proof fn store_succeeds(s: StoreState, stored_already: bool)
    requires
        s.stage is CheckDestination,
        !s.failed,
    ensures
        ({
            let s2 = store_next(s, StoreEventView::Exists(stored_already));
            let s3 = if stored_already { s2 } else { store_next(store_next(s2, StoreEventView::Done), StoreEventView::Done) };
            let s4 = store_next(s3, StoreEventView::Done);
            &&& stored_already ==> s2.stage == StoreStage::RemoveTemporary
            &&& !stored_already ==> s2.stage == StoreStage::CreateFolder
            &&& !stored_already ==> store_next(s2, StoreEventView::Done).stage == StoreStage::CopyToDestination
            &&& s3.stage == StoreStage::RemoveTemporary
            &&& s4.stage == StoreStage::Finished && !s4.failed && s4.digest == s.digest
        }),
{
}

/// Where a store puts a blob is where the storage finds it: the folder a
/// store checks and creates is the one `delete_target` removes, and the file
/// it copies to is the one `url_for` names.
pub proof fn store_and_lookup_agree(storage: DiskStorage, s: StoreState, a: StoreAction)
    requires
        s.dir == storage.path@,
        store_action_for(s, a),
    ensures
        a matches StoreAction::CheckExists { path } ==> path@ == storage.spec_blob_path(s.digest),
        a matches StoreAction::CreateFolder { path } ==> path@ == storage.spec_blob_path(s.digest),
        a matches StoreAction::Copy { to, .. } ==> to@ == storage.spec_blob_file(s.digest),
        a matches StoreAction::ReturnDigest { digest } ==> digest@ == s.digest,
{
}

/// A store in which every step succeeded answers with the digest it fixed,
/// whatever the size of the file: never with an error.
pub proof fn successful_store_answers_its_digest(s: StoreState, a: StoreAction)
    requires
        store_action_for(s, a),
        s.stage is Finished,
        !s.failed,
    ensures
        a matches StoreAction::ReturnDigest { digest } && digest@ == s.digest,
{
}

/// A store of a file of any size, read in any nonempty chunks, in which every
/// step succeeds (the blob's folder is created and the file copied into it,
/// or the blob is there already) answers with the lower-case hex SHA-256 of
/// the file's bytes.
pub proof fn store_of_any_file_answers_its_sha256(
    dir: Seq<char>,
    file: Seq<char>,
    chunks: Seq<Seq<u8>>,
    stored_already: bool,
    a: StoreAction,
)
    requires
        forall|i: int| 0 <= i < chunks.len() ==> (#[trigger] chunks[i]).len() > 0,
        ({
            let read = store_next(feed(store_start(dir, file), chunks), StoreEventView::Chunk(Seq::empty()));
            let checked = store_next(read, StoreEventView::Exists(stored_already));
            let placed = if stored_already {
                checked
            } else {
                store_next(store_next(checked, StoreEventView::Done), StoreEventView::Done)
            };
            store_action_for(store_next(placed, StoreEventView::Done), a)
        }),
    ensures
        a matches StoreAction::ReturnDigest { digest } && digest@ == hex_lower(sha256(concat_chunks(chunks))),
{
    store_digest_is_sha256_of_file(dir, file, chunks);
}

} // verus!
