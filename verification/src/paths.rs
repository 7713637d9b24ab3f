//! Where the store lies, as text: the folder of the program and the file in it.

use vstd::prelude::*;
use vstd::string::*;

verus! {

/// The folder of the program: `.cotp` under the home folder, or the current
/// folder where no home folder is known.
pub fn get_cotp_folder(home: Option<&str>) -> (r: String)
    ensures
        r@ == match home {
            Some(h) => h@ + "/.cotp"@,
            None => "."@,
        },
{
    match home {
        Some(h) => {
            let mut folder = String::from_str(h);
            folder.append("/.cotp");
            folder
        },
        None => String::from_str("."),
    }
}

/// The file of the store in a folder.
pub fn get_db_path(folder: &str) -> (r: String)
    ensures
        r@ == folder@ + "/db.cotp"@,
{
    let mut path = String::from_str(folder);
    path.append("/db.cotp");
    path
}

} // verus!
