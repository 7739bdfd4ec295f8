//! Where the store keeps its files inside its data directory.
use vstd::prelude::*;
use vstd::string::*;

verus! {

/// The path of the file `name` inside the directory `dir`.
pub open spec fn joined(dir: Seq<char>, name: Seq<char>) -> Seq<char> {
    dir + seq!['/'] + name
}

/// The path of the data file inside `data_dir`.
pub fn get_data_file_path(data_dir: &str) -> (r: String)
    ensures
        r@ == joined(data_dir@, "budget_book_data.bin"@),
{
    let mut path = data_dir.to_owned();
    path.append("/");
    proof {
        reveal_strlit("/");
        assert("/"@ =~= seq!['/']);
    }
    path.append("budget_book_data.bin");
    path
}

/// The path of the password record inside `data_dir`, beside the data file.
pub fn get_password_file_path(data_dir: &str) -> (r: String)
    ensures
        r@ == joined(data_dir@, "password.hash"@),
{
    let mut path = data_dir.to_owned();
    path.append("/");
    proof {
        reveal_strlit("/");
        assert("/"@ =~= seq!['/']);
    }
    path.append("password.hash");
    path
}

} // verus!
