//! Description of where an observer saves its results, and the errors a
//! save target can be rejected with.

use vstd::prelude::*;
use vstd::string::StringExecFns;

verus! {

/// Information on where the results of a run will be saved: the target
/// file and the name of the group inside it.
#[derive(Clone, Debug)]
pub struct SaveInfo {
    path: String,
    group: String,
}

impl SaveInfo {
    /// The characters of the target file path.
    pub closed spec fn path_chars(self) -> Seq<char> {
        self.path@
    }

    /// The characters of the group name inside the target file.
    pub closed spec fn group_chars(self) -> Seq<char> {
        self.group@
    }

    pub fn new(path: &str, group: &str) -> (info: Self)
        ensures
            info.path_chars() == path@,
            info.group_chars() == group@,
    {
        Self { path: path.to_owned(), group: group.to_owned() }
    }

    pub fn set_path(&mut self, new_path: &str)
        ensures
            final(self).path_chars() == new_path@,
            final(self).group_chars() == old(self).group_chars(),
    {
        self.path = new_path.to_owned();
    }

    pub fn get_path(&self) -> (path: &str)
        ensures
            path@ == self.path_chars(),
    {
        self.path.as_str()
    }

    pub fn set_group(&mut self, new_group: &str)
        ensures
            final(self).group_chars() == new_group@,
            final(self).path_chars() == old(self).path_chars(),
    {
        self.group = new_group.to_owned();
    }

    pub fn get_group(&self) -> (group: &str)
        ensures
            group@ == self.group_chars(),
    {
        self.group.as_str()
    }

    /// One-line rendering of the save target.
    pub fn describe(&self) -> (text: String)
        ensures
            text@ == "path: "@ + self.path_chars() + ", group: "@ + self.group_chars(),
    {
        let mut text = "path: ".to_owned();
        text.append(self.path.as_str());
        text.append(", group: ");
        text.append(self.group.as_str());
        text
    }
}

impl Default for SaveInfo {
    fn default() -> (info: Self)
        ensures
            info.path_chars() == "simulation_data.hdf5"@,
            info.group_chars() == "data"@,
    {
        Self::new("simulation_data.hdf5", "data")
    }
}

/// Why a save target is rejected before or after a run.
#[derive(Clone, Debug)]
pub enum ObserverError {
    /// The directory that the target file should sit in does not exist.
    DirectoryNotFound(SaveInfo),
    /// The target file already holds a group of the requested name, and
    /// results will not overwrite it.
    GroupAlreadyExist(SaveInfo),
}

impl ObserverError {
    /// The rendered error text.
    pub fn message(&self) -> (text: String)
        ensures
            (match self {
                ObserverError::DirectoryNotFound(info) => text@ == "ObserverError: Could not find directory of \""@
                    + info.path_chars() + "\""@,
                ObserverError::GroupAlreadyExist(info) => text@ == "ObserverError: Group \""@
                    + info.group_chars() + "\" in file \""@ + info.path_chars() + "\" already exists"@,
            }),
    {
        match self {
            ObserverError::DirectoryNotFound(info) => {
                let mut text = "ObserverError: Could not find directory of \"".to_owned();
                text.append(info.get_path());
                text.append("\"");
                text
            },
            ObserverError::GroupAlreadyExist(info) => {
                let mut text = "ObserverError: Group \"".to_owned();
                text.append(info.get_group());
                text.append("\" in file \"");
                text.append(info.get_path());
                text.append("\" already exists");
                text
            },
        }
    }
}

} // verus!
