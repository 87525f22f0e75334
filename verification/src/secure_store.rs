//! The naming rules of a private application data directory: where it lives,
//! how file names resolve inside it, which permissions its entries get, and
//! the lock that guards a JSON document in it.

use vstd::prelude::*;
use vstd::string::StringSliceAdditionalSpecFns;

use core::marker::PhantomData;

use crate::error::{Error, Failure, Result};
use crate::text::{chars_of, extend_text, string_of};

verus! {

/// The byte of the path separator `/`.
pub const SLASH: u8 = 0x2f;

/// The byte of `.`, which begins the name of a hidden directory.
pub const DOT: u8 = 0x2e;

/// `name` resolved against the directory `base`, both as the bytes the
/// operating system names them by, as `Path::join` does with `/` separators:
/// an absolute name replaces the base, otherwise a separator is inserted
/// unless the base is empty or already ends with one.
pub open spec fn join_path(base: Seq<u8>, name: Seq<u8>) -> Seq<u8> {
    if name.len() > 0 && name[0] == SLASH {
        name
    } else if base.len() == 0 || base.last() == SLASH {
        base + name
    } else {
        base + seq![SLASH] + name
    }
}

/// A directory under the user's home for the application's private files,
/// its path held as the bytes the operating system names it by.
#[derive(Clone, Debug)]
pub struct SecureDir {
    root: Vec<u8>,
}

/// What `SecureDir::discover` resolves to: the override when given, else
/// `.{app_name}` in the home directory, or the error when that is unknown.
pub open spec fn discovered_root(
    app_name: Seq<u8>,
    override_root: Option<Seq<u8>>,
    home: Option<Seq<u8>>,
) -> core::result::Result<Seq<u8>, Failure> {
    match override_root {
        Some(root) => Ok(root),
        None => match home {
            Some(h) => Ok(join_path(h, seq![DOT] + app_name)),
            None => Err(Failure::Configuration("could not determine the home directory"@)),
        },
    }
}

impl SecureDir {
    /// The directory's path.
    pub closed spec fn root_path(&self) -> Seq<u8> {
        self.root@
    }

    /// Resolves to `~/.{app_name}`, or `override_root` when given; `home` is
    /// the user's home directory, `None` when it cannot be determined. Paths
    /// are the bytes the operating system names them by.
    pub fn discover(app_name: &str, override_root: Option<Vec<u8>>, home: Option<Vec<u8>>) -> (r:
        Result<SecureDir>)
        ensures
            match discovered_root(
                app_name.spec_bytes(),
                match override_root {
                    Some(root) => Some(root@),
                    None => None,
                },
                match home {
                    Some(h) => Some(h@),
                    None => None,
                },
            ) {
                Ok(root) => (r matches Ok(dir) && dir.root_path() == root),
                Err(failure) => (r matches Err(e) && e@ == failure),
            },
    {
        if let Some(root) = override_root {
            return Ok(SecureDir { root });
        }
        match home {
            Some(h) => {
                let mut name: Vec<u8> = Vec::new();
                name.push(DOT);
                extend_bytes(&mut name, app_name.as_bytes());
                assert(name@ =~= seq![DOT] + app_name.spec_bytes());
                Ok(SecureDir { root: joined(h.as_slice(), name.as_slice()) })
            },
            None => Err(Error::Configuration("could not determine the home directory".to_owned())),
        }
    }

    /// The directory's path.
    pub fn root(&self) -> (root: &[u8])
        ensures
            root@ == self.root_path(),
    {
        self.root.as_slice()
    }

    /// The path of the file `name` in the directory.
    pub fn path(&self, name: &str) -> (path: Vec<u8>)
        ensures
            path@ == join_path(self.root_path(), name.spec_bytes()),
    {
        joined(self.root.as_slice(), name.as_bytes())
    }
}

fn extend_bytes(out: &mut Vec<u8>, more: &[u8])
    ensures
        final(out)@ == old(out)@ + more@,
{
    let mut i: usize = 0;
    while i < more.len()
        invariant
            i <= more@.len(),
            out@ == old(out)@ + more@.take(i as int),
        decreases more@.len() - i,
    {
        out.push(more[i]);
        assert(more@.take(i + 1) =~= more@.take(i as int).push(more@[i as int]));
        i = i + 1;
    }
    assert(more@.take(more@.len() as int) =~= more@);
}

fn joined(base: &[u8], name: &[u8]) -> (path: Vec<u8>)
    ensures
        path@ == join_path(base@, name@),
{
    let mut out: Vec<u8> = Vec::new();
    if name.len() > 0 && name[0] == SLASH {
        extend_bytes(&mut out, name);
        assert(out@ =~= name@);
        return out;
    }
    extend_bytes(&mut out, base);
    let n = out.len();
    if n > 0 && out[n - 1] != SLASH {
        out.push(SLASH);
    }
    extend_bytes(&mut out, name);
    assert(out@ =~= join_path(base@, name@));
    out
}

/// The permission bits of a private entry: `0o700` for a directory, `0o600`
/// for a file.
pub fn private_mode(is_dir: bool) -> (mode: u32)
    ensures
        mode == if is_dir {
            0o700u32
        } else {
            0o600u32
        },
{
    if is_dir {
        0o700
    } else {
        0o600
    }
}

/// An exclusive advisory lock on an arbitrary path, for when the lock belongs
/// beside the thing it guards rather than in the application's directory.
pub struct FileLock;

/// A JSON-serialized value in a [`SecureDir`], guarded by an advisory lock
/// file so concurrent processes serialize their read-modify-write cycles.
pub struct LockedJsonStore<T> {
    dir: SecureDir,
    file_name: String,
    lock_name: String,
    _marker: PhantomData<T>,
}

impl<T> LockedJsonStore<T> {
    /// The directory holding the document.
    pub closed spec fn directory(&self) -> SecureDir {
        self.dir
    }

    /// The document's file name.
    pub closed spec fn document(&self) -> Seq<char> {
        self.file_name@
    }

    /// The lock file's name.
    pub closed spec fn lock_file(&self) -> Seq<char> {
        self.lock_name@
    }

    /// A store for the document `file_name` in `dir`, locked through the
    /// file `.{file_name}.lock` beside it.
    pub fn new(dir: SecureDir, file_name: String) -> (store: Self)
        ensures
            store.directory() == dir,
            store.document() == file_name@,
            store.lock_file() == seq!['.'] + file_name@ + ".lock"@,
    {
        let mut lock = chars_of(".");
        extend_text(&mut lock, file_name.as_str());
        extend_text(&mut lock, ".lock");
        assert(lock@ =~= seq!['.'] + file_name@ + ".lock"@) by {
            reveal_strlit(".");
        }
        LockedJsonStore { dir, file_name, lock_name: string_of(&lock), _marker: PhantomData }
    }

    /// The directory holding the document.
    pub fn dir(&self) -> (dir: &SecureDir)
        ensures
            *dir == self.directory(),
    {
        &self.dir
    }

    /// The document's file name.
    pub fn file_name(&self) -> (name: &str)
        ensures
            name@ == self.document(),
    {
        self.file_name.as_str()
    }

    /// The lock file's name.
    pub fn lock_name(&self) -> (name: &str)
        ensures
            name@ == self.lock_file(),
    {
        self.lock_name.as_str()
    }

    /// The error for a stored document that does not decode.
    pub fn decode_failure(&self, reason: &str) -> (e: Error)
        ensures
            e@ == Failure::Configuration("invalid "@ + self.document() + ": "@ + reason@),
    {
        let mut message = chars_of("invalid ");
        extend_text(&mut message, self.file_name.as_str());
        extend_text(&mut message, ": ");
        extend_text(&mut message, reason);
        Error::Configuration(string_of(&message))
    }

    /// The error for a value that does not encode.
    pub fn encode_failure(&self, reason: &str) -> (e: Error)
        ensures
            e@ == Failure::Configuration("could not encode "@ + self.document() + ": "@ + reason@),
    {
        let mut message = chars_of("could not encode ");
        extend_text(&mut message, self.file_name.as_str());
        extend_text(&mut message, ": ");
        extend_text(&mut message, reason);
        Error::Configuration(string_of(&message))
    }
}

/// A relative name resolves to a path inside the directory: the directory's
/// path followed by the name.
pub proof fn law_relative_names_stay_inside(base: Seq<u8>, name: Seq<u8>)
    requires
        name.len() == 0 || name[0] != SLASH,
    ensures
        join_path(base, name).take(base.len() as int) == base,
        join_path(base, name).skip(join_path(base, name).len() - name.len()) == name,
{
    let p = join_path(base, name);
    assert(p.take(base.len() as int) =~= base);
    assert(p.skip(p.len() - name.len()) =~= name);
}

} // verus!
