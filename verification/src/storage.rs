use vstd::prelude::*;

verus! {

/// The fixed name of the hidden storage directory under the home directory.
pub open spec fn storage_dir_name() -> Seq<char> {
    ".bwp"@
}

/// The storage directory's path under the given home directory.
pub open spec fn storage_dir_of(home: Seq<char>) -> Seq<char> {
    home + "/"@ + storage_dir_name()
}

/// The path of a file with the given name inside the given directory.
pub open spec fn file_path_of(dir: Seq<char>, name: Seq<char>) -> Seq<char> {
    dir + "/"@ + name
}

/// Names the storage directory under the given home directory. The
/// surrounding program creates it on disk (creation is a no-op when it
/// already exists) and resolves the home directory itself.
pub fn storage_dir_path(home: &str) -> (r: String)
    ensures
        r@ == storage_dir_of(home@),
{
    let mut s = String::from_str(home);
    s.append("/");
    s.append(".bwp");
    proof {
        assert(s@ =~= storage_dir_of(home@));
    }
    s
}

/// Directory setup is repeatable: any two runs over the same home
/// directory name the same storage path.
pub proof fn lemma_storage_dir_repeatable(home: Seq<char>, first: Seq<char>, second: Seq<char>)
    requires
        first == storage_dir_of(home),
        second == storage_dir_of(home),
    ensures
        first == second,
{
}

/// One pending file write: the full path and the exact bytes to put there.
pub struct FileWrite {
    pub path: String,
    pub bytes: Vec<u8>,
}

/// Plans the persistence of a downloaded image: the file goes under the
/// given directory with the given name, and its content is the response
/// body unchanged, byte for byte.
pub fn persist_plan(dir: &str, filename: &str, bytes: Vec<u8>) -> (w: FileWrite)
    ensures
        w.path@ == file_path_of(dir@, filename@),
        w.bytes@ == bytes@,
{
    let mut path = String::from_str(dir);
    path.append("/");
    path.append(filename);
    proof {
        assert(path@ =~= file_path_of(dir@, filename@));
    }
    FileWrite { path, bytes }
}

} // verus!
