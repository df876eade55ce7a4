use vstd::prelude::*;

verus! {

/// A path names an absolute location when it starts with the separator
/// (paths are unix-style here).
pub open spec fn is_absolute_path(s: Seq<char>) -> bool {
    s.len() > 0 && s[0] == '/'
}

/// Why a file is not to be created.
#[derive(Clone, Copy, PartialEq, Eq, Structural, Debug)]
pub enum CreateError {
    /// Something that is not a directory already exists at the path.
    AlreadyExists,
}

/// Holds the resolved location of one file to create: the name as given
/// when it is absolute, else the current directory with the name joined on.
pub struct FileManager {
    file_path: String,
}

impl FileManager {
    /// The resolved path.
    pub closed spec fn path_spec(&self) -> Seq<char> {
        self.file_path@
    }

    /// Resolves `filename` against `current_dir`: an absolute name is kept
    /// as it is, a relative one is joined onto the directory with a
    /// separator. The shell hands in the process's current directory, which
    /// the library cannot read itself.
    pub fn new(filename: String, current_dir: String) -> (m: FileManager)
        ensures
            is_absolute_path(filename@) ==> m.path_spec() == filename@,
            !is_absolute_path(filename@) ==> m.path_spec() == current_dir@ + seq!['/']
                + filename@,
    {
        let ghost fname: Seq<char> = filename@;
        let ghost cd: Seq<char> = current_dir@;
        let n = filename.as_str().unicode_len();
        let absolute = if n > 0 {
            filename.as_str().get_char(0) == '/'
        } else {
            false
        };
        if absolute {
            FileManager { file_path: filename }
        } else {
            let mut p = current_dir;
            p.append("/");
            p.append(filename.as_str());
            proof {
                reveal_strlit("/");
                assert(p@ =~= cd + seq!['/'] + fname);
            }
            FileManager { file_path: p }
        }
    }

    /// Decides file creation from what the filesystem reports of the
    /// resolved path: when something that is not a directory already exists
    /// there, the file is refused; otherwise `Ok` hands the path back for
    /// the shell to create an empty file at.
    pub fn create_file(&self, exists: bool, is_dir: bool) -> (r: Result<String, CreateError>)
        ensures
            r is Err <==> exists && !is_dir,
            r is Err ==> r->Err_0 == CreateError::AlreadyExists,
            r matches Ok(p) ==> p@ == self.path_spec(),
    {
        if exists && !is_dir {
            Err(CreateError::AlreadyExists)
        } else {
            Ok(self.file_path.clone())
        }
    }

    /// The resolved path, for the shell's filesystem calls.
    pub fn path(&self) -> (p: &str)
        ensures
            p@ == self.path_spec(),
    {
        self.file_path.as_str()
    }
}

} // verus!
