//! The media files of a funded asset: from the place where they were received to the wallet.

use vstd::prelude::*;
use crate::errors::ChannelError;
use crate::outside::sha256_text;
#[allow(unused_imports)]
use crate::outside::sha256_digest_text;
use crate::text::{join, path_join, same_text};
#[allow(unused_imports)]
use crate::text::{path_below, texts};

verus! {

/// The directory that holds the media received for a funding.
pub open spec fn staging_dir(ldk_data_dir: Seq<char>, funding_txid: Seq<char>) -> Seq<char> {
    path_below(ldk_data_dir, "media_staging_"@ + funding_txid)
}

/// Directory holding the media received for a funding, before the contract has vouched for it.
pub fn get_media_staging_dir(ldk_data_dir: &str, funding_txid: &str) -> (r: String)
    ensures
        r@ == staging_dir(ldk_data_dir@, funding_txid@),
{
    let name: String = join("media_staging_", funding_txid);
    path_join(ldk_data_dir, name.as_str())
}

/// The installation of the media files that a contract names by their digests.
///
/// Every file that the wallet does not have yet is looked at before the first one is moved.
#[derive(Debug)]
pub struct MediaInstall {
    digests: Vec<String>,
    staging_dir: String,
    /// How many files have been looked at.
    checked: usize,
    /// The files to move.
    moves: Vec<String>,
    /// How many files have been moved.
    moved: usize,
}

/// What contracts say of a [`MediaInstall`].
pub struct MediaInstallView {
    pub digests: Seq<Seq<char>>,
    pub staging_dir: Seq<char>,
    pub checked: nat,
    pub moves: Seq<Seq<char>>,
    pub moved: nat,
}

impl View for MediaInstall {
    type V = MediaInstallView;

    closed spec fn view(&self) -> MediaInstallView {
        MediaInstallView {
            digests: texts(self.digests@),
            staging_dir: self.staging_dir@,
            checked: self.checked as nat,
            moves: texts(self.moves@),
            moved: self.moved as nat,
        }
    }
}

/// What to do next to install media files.
#[derive(Debug)]
pub enum MediaAction {
    /// See whether the wallet has the file; if not, read it where it was received.
    Look { digest: String },
    /// Move the file to the wallet.
    Move { digest: String },
    /// Remove the directory where the files were received, whatever comes of it. This is the end.
    Clear,
}

/// What contracts say of a [`MediaAction`].
pub enum MediaActionView {
    Look { digest: Seq<char> },
    Move { digest: Seq<char> },
    Clear,
}

impl View for MediaAction {
    type V = MediaActionView;

    open spec fn view(&self) -> MediaActionView {
        match self {
            MediaAction::Look { digest } => MediaActionView::Look { digest: digest@ },
            MediaAction::Move { digest } => MediaActionView::Move { digest: digest@ },
            MediaAction::Clear => MediaActionView::Clear,
        }
    }
}

/// What came of looking at a file.
#[derive(Debug)]
pub enum MediaLook {
    /// The wallet has it.
    Installed,
    /// It was received, and holds these bytes.
    Staged(Vec<u8>),
    /// It could not be read.
    Missing,
}

impl MediaInstallView {
    /// Nothing moves before everything has been looked at, and every file to move was read and has
    /// the digest under which it is named.
    pub open spec fn wf(self) -> bool {
        &&& self.checked <= self.digests.len()
        &&& self.moved <= self.moves.len()
        &&& self.moved > 0 ==> self.checked == self.digests.len()
        &&& forall|i: int|
            0 <= i < self.moves.len() ==> {
                &&& self.digests.contains(#[trigger] self.moves[i])
                &&& exists|bytes: Seq<u8>| #[trigger] sha256_digest_text(bytes) == self.moves[i]
            }
    }

    /// What to do next.
    pub open spec fn action(self) -> MediaActionView {
        if self.checked < self.digests.len() {
            MediaActionView::Look { digest: self.digests[self.checked as int] }
        } else if self.moved < self.moves.len() {
            MediaActionView::Move { digest: self.moves[self.moved as int] }
        } else {
            MediaActionView::Clear
        }
    }

    /// After a look at the next file. The reason for closing the channel is that the file cannot be
    /// read or that its bytes have another digest.
    pub open spec fn looked(self, look: MediaLook) -> Result<MediaInstallView, Seq<char>> {
        let digest = self.digests[self.checked as int];
        match look {
            MediaLook::Installed => Ok(MediaInstallView { checked: self.checked + 1, ..self }),
            MediaLook::Missing => Err("Missing RGB media file "@ + digest + " for funding"@),
            MediaLook::Staged(bytes) => if sha256_digest_text(bytes@) == digest {
                Ok(
                    MediaInstallView {
                        checked: self.checked + 1,
                        moves: self.moves.push(digest),
                        ..self
                    },
                )
            } else {
                Err("Corrupt RGB media file "@ + digest + " for funding"@)
            },
        }
    }

    /// After the next file has been moved.
    pub open spec fn after_move(self) -> MediaInstallView {
        MediaInstallView { moved: self.moved + 1, ..self }
    }

    /// The reason for closing the channel if the next file cannot be moved.
    pub open spec fn move_failure(self, words: Seq<char>) -> Seq<char> {
        "Failed to store RGB media file "@ + path_below(
            self.staging_dir,
            self.moves[self.moved as int],
        ) + " for funding: "@ + words
    }
}

impl MediaInstall {
    #[verifier::type_invariant]
    spec fn inv(self) -> bool {
        self@.wf()
    }

    /// The installation of the media files with the given digests, before anything is done.
    pub fn new(digests: Vec<String>, ldk_data_dir: &str, funding_txid: &str) -> (r: MediaInstall)
        ensures
            r@.wf(),
            r@.digests == texts(digests@),
            r@.staging_dir == staging_dir(ldk_data_dir@, funding_txid@),
            r@.checked == 0,
            r@.moves == Seq::<Seq<char>>::empty(),
            r@.moved == 0,
    {
        let staging: String = get_media_staging_dir(ldk_data_dir, funding_txid);
        let moves: Vec<String> = Vec::new();
        assert(texts(moves@) =~= Seq::<Seq<char>>::empty());
        MediaInstall { digests, staging_dir: staging, checked: 0, moves, moved: 0 }
    }

    /// What to do next.
    pub fn action(&self) -> (r: MediaAction)
        ensures
            r@ == self@.action(),
    {
        if self.checked < self.digests.len() {
            MediaAction::Look { digest: self.digests[self.checked].clone() }
        } else if self.moved < self.moves.len() {
            MediaAction::Move { digest: self.moves[self.moved].clone() }
        } else {
            MediaAction::Clear
        }
    }

    /// Takes what came of looking at the next file. On failure nothing has been moved.
    pub fn looked(self, look: MediaLook) -> (r: Result<MediaInstall, ChannelError>)
        requires
            self@.action() is Look,
        ensures
            match r {
                Ok(next) => next@.wf() && self@.looked(look) == Ok::<MediaInstallView, Seq<char>>(
                    next@,
                ),
                Err(e) => self@.moved == 0 && self@.looked(look) == Err::<
                    MediaInstallView,
                    Seq<char>,
                >(e.reason()),
            },
    {
        proof {
            use_type_invariant(&self);
        }
        let MediaInstall { digests, staging_dir, checked, moves, moved } = self;
        let mut moves: Vec<String> = moves;
        assert(checked < digests.len());
        let digest: String = digests[checked].clone();
        assert(self@.digests[checked as int] == digest@);
        match &look {
            MediaLook::Installed => {},
            MediaLook::Missing => {
                let start: String = join("Missing RGB media file ", digest.as_str());
                return Err(ChannelError::close(join(start.as_str(), " for funding")));
            },
            MediaLook::Staged(bytes) => {
                let found: String = sha256_text(bytes.as_slice());
                if !same_text(found.as_str(), digest.as_str()) {
                    let start: String = join("Corrupt RGB media file ", digest.as_str());
                    return Err(ChannelError::close(join(start.as_str(), " for funding")));
                }
                assert(sha256_digest_text(bytes@) == digest@);
                moves.push(digest);
                assert(texts(moves@) =~= self@.moves.push(digest@));
                assert(self@.digests.contains(digest@));
            },
        }
        Ok(MediaInstall { digests, staging_dir, checked: checked + 1, moves, moved })
    }

    /// Takes that the next file has been moved.
    pub fn moved(self) -> (r: MediaInstall)
        requires
            self@.action() is Move,
        ensures
            r@.wf(),
            r@ == self@.after_move(),
    {
        proof {
            use_type_invariant(&self);
        }
        let MediaInstall { digests, staging_dir, checked, moves, moved } = self;
        assert(moved < moves.len());
        MediaInstall { digests, staging_dir, checked, moves, moved: moved + 1 }
    }

    /// Takes that the next file could not be moved, and why.
    pub fn move_failed(self, words: &str) -> (r: ChannelError)
        requires
            self@.action() is Move,
        ensures
            r.reason() == self@.move_failure(words@),
    {
        let path: String = path_join(self.staging_dir.as_str(), self.moves[self.moved].as_str());
        let start: String = join("Failed to store RGB media file ", path.as_str());
        let middle: String = join(start.as_str(), " for funding: ");
        ChannelError::close(join(middle.as_str(), words))
    }
}

/// A file moves only once every file has been looked at, and only if bytes with its digest have
/// been read.
pub proof fn media_moves_only_checked_files(install: MediaInstallView, digest: Seq<char>)
    requires
        install.wf(),
        install.action() == (MediaActionView::Move { digest }),
    ensures
        install.checked == install.digests.len(),
        install.digests.contains(digest),
        exists|bytes: Seq<u8>| #[trigger] sha256_digest_text(bytes) == digest,
{
}

/// When the installation ends, every file has been looked at, and every file to move has been
/// moved.
pub proof fn media_end_leaves_nothing_out(install: MediaInstallView)
    requires
        install.wf(),
        install.action() is Clear,
    ensures
        install.checked == install.digests.len(),
        install.moved == install.moves.len(),
{
}

/// Each answer brings the installation nearer to its end.
pub proof fn media_installation_ends(install: MediaInstallView, look: MediaLook)
    requires
        install.wf(),
    ensures
        install.action() is Look ==> (install.looked(look) matches Ok(next) ==> next.digests.len()
            - next.checked < install.digests.len() - install.checked),
        install.action() is Move ==> install.after_move().checked == install.checked
            && install.after_move().moves.len() - install.after_move().moved < install.moves.len()
            - install.moved,
{
}

/// Files are looked at in the order of their digests, then those to move are moved in the order in
/// which they were looked at, then the directory is removed.
pub proof fn media_files_are_looked_at_then_moved(install: MediaInstallView)
    ensures
        install.checked < install.digests.len() ==> install.action() == (MediaActionView::Look {
            digest: install.digests[install.checked as int],
        }),
        install.checked >= install.digests.len() && install.moved < install.moves.len()
            ==> install.action() == (MediaActionView::Move {
            digest: install.moves[install.moved as int],
        }),
        install.checked >= install.digests.len() && install.moved >= install.moves.len()
            ==> install.action() is Clear,
{
}

/// A file that the wallet has is not moved. One that was received is moved if and only if its
/// bytes have the digest under which it is named, and else is corrupt; one that cannot be read is
/// missing. Either closes the channel, and says which file it was.
pub proof fn media_file_is_moved_for_its_digest(install: MediaInstallView, bytes: Vec<u8>)
    requires
        install.checked < install.digests.len(),
    ensures
        ({
            let digest = install.digests[install.checked as int];
            let seen = MediaInstallView { checked: install.checked + 1, ..install };
            &&& install.looked(MediaLook::Installed) == Ok::<MediaInstallView, Seq<char>>(seen)
            &&& install.looked(MediaLook::Missing) == Err::<MediaInstallView, Seq<char>>(
                "Missing RGB media file "@ + digest + " for funding"@,
            )
            &&& sha256_digest_text(bytes@) == digest ==> install.looked(MediaLook::Staged(bytes))
                == Ok::<MediaInstallView, Seq<char>>(
                MediaInstallView { moves: install.moves.push(digest), ..seen },
            )
            &&& sha256_digest_text(bytes@) != digest ==> install.looked(MediaLook::Staged(bytes))
                == Err::<MediaInstallView, Seq<char>>(
                "Corrupt RGB media file "@ + digest + " for funding"@,
            )
        }),
        install.after_move().moved == install.moved + 1,
        install.after_move().moves == install.moves,
        install.after_move().digests == install.digests,
        install.after_move().checked == install.checked,
        install.after_move().staging_dir == install.staging_dir,
{
}

/// The media received for a funding stands below the data directory, in a directory named after the
/// funding transaction; a file that cannot be moved from there is named by its path.
pub proof fn media_is_staged_by_funding_transaction(
    ldk_data_dir: Seq<char>,
    funding_txid: Seq<char>,
    install: MediaInstallView,
    words: Seq<char>,
)
    ensures
        staging_dir(ldk_data_dir, funding_txid) == path_below(
            ldk_data_dir,
            "media_staging_"@ + funding_txid,
        ),
        install.move_failure(words) == "Failed to store RGB media file "@ + path_below(
            install.staging_dir,
            install.moves[install.moved as int],
        ) + " for funding: "@ + words,
{
}

/// An action shows what is to be done, and with which file.
pub proof fn media_action_shows_its_file(digest: String)
    ensures
        (MediaAction::Look { digest })@ == (MediaActionView::Look { digest: digest@ }),
        (MediaAction::Move { digest })@ == (MediaActionView::Move { digest: digest@ }),
        MediaAction::Clear@ is Clear,
{
}

} // verus!
