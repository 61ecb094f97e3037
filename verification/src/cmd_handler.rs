use vstd::prelude::*;
use crate::config_type::{list_contains, message_router_kind, sidecar_kind};
use crate::text::same;

verus! {

/// The commands of the tool.
#[derive(Clone, Copy, Debug, PartialEq, Eq)]
pub enum CMD {
    Analyze,
    ListKnownImages,
    ListManifestsIgnore,
    AddKnownImage,
    AddManifestIgnore,
    DeleteKnownImage,
    DeleteManifestIgnore,
    NotExistingCommand,
}

/// What is wrong with the arguments of a command.
#[derive(Clone, Copy, Debug, PartialEq, Eq)]
pub enum ArgumentError {
    /// Fewer arguments than the command takes.
    MissingParameters,
    /// The kind of a known image is neither `sidecar` nor `mr`.
    UnknownKind,
}

/// The word that a command is called by. The command that does not exist
/// has none.
pub open spec fn command_text(command: CMD) -> Seq<char> {
    match command {
        CMD::Analyze => "analyze"@,
        CMD::ListKnownImages => "list-known-images"@,
        CMD::ListManifestsIgnore => "list-manifest-ignore"@,
        CMD::AddKnownImage => "add-known-image"@,
        CMD::AddManifestIgnore => "add-manifest-ignore"@,
        CMD::DeleteKnownImage => "delete-known-image"@,
        CMD::DeleteManifestIgnore => "delete-manifest-ignore"@,
        CMD::NotExistingCommand => Seq::empty(),
    }
}

/// The command that a word calls. Any other word calls the command that
/// does not exist.
pub open spec fn command_named(word: Seq<char>) -> CMD {
    if word == "analyze"@ {
        CMD::Analyze
    } else if word == "list-known-images"@ {
        CMD::ListKnownImages
    } else if word == "list-manifest-ignore"@ {
        CMD::ListManifestsIgnore
    } else if word == "add-known-image"@ {
        CMD::AddKnownImage
    } else if word == "add-manifest-ignore"@ {
        CMD::AddManifestIgnore
    } else if word == "delete-known-image"@ {
        CMD::DeleteKnownImage
    } else if word == "delete-manifest-ignore"@ {
        CMD::DeleteManifestIgnore
    } else {
        CMD::NotExistingCommand
    }
}

/// The kinds that a known image can have.
pub open spec fn image_kinds() -> Seq<Seq<char>> {
    seq![sidecar_kind(), message_router_kind()]
}

/// What is wrong with the arguments of a command, if anything. The
/// arguments are counted from the name of the program: the command is the
/// second, and what it takes follows.
pub open spec fn argument_error(command: CMD, args: Seq<Seq<char>>) -> Option<ArgumentError> {
    match command {
        CMD::AddKnownImage => if args.len() < 5 {
            Some(ArgumentError::MissingParameters)
        } else if !image_kinds().contains(args[4]) {
            Some(ArgumentError::UnknownKind)
        } else {
            None
        },
        CMD::AddManifestIgnore | CMD::DeleteKnownImage | CMD::DeleteManifestIgnore => if args.len()
            < 3 {
            Some(ArgumentError::MissingParameters)
        } else {
            None
        },
        _ => None,
    }
}

impl CMD {
    /// The kinds that a known image can have.
    pub fn get_types() -> (r: Vec<String>)
        ensures
            r.deep_view() == image_kinds(),
    {
        let mut r: Vec<String> = Vec::new();
        r.push("sidecar".to_owned());
        r.push("mr".to_owned());
        assert(r.deep_view() =~= image_kinds());
        r
    }

    /// The command that the word `s` calls.
    pub fn from_str(s: &str) -> (r: Self)
        ensures
            r == command_named(s@),
    {
        if same(s, "analyze") {
            Self::Analyze
        } else if same(s, "list-known-images") {
            Self::ListKnownImages
        } else if same(s, "list-manifest-ignore") {
            Self::ListManifestsIgnore
        } else if same(s, "add-known-image") {
            Self::AddKnownImage
        } else if same(s, "add-manifest-ignore") {
            Self::AddManifestIgnore
        } else if same(s, "delete-known-image") {
            Self::DeleteKnownImage
        } else if same(s, "delete-manifest-ignore") {
            Self::DeleteManifestIgnore
        } else {
            Self::NotExistingCommand
        }
    }

    /// The word that the command is called by.
    pub fn to_str(&self) -> (r: &str)
        ensures
            r@ == command_text(*self),
    {
        match self {
            Self::Analyze => "analyze",
            Self::ListKnownImages => "list-known-images",
            Self::ListManifestsIgnore => "list-manifest-ignore",
            Self::AddKnownImage => "add-known-image",
            Self::AddManifestIgnore => "add-manifest-ignore",
            Self::DeleteKnownImage => "delete-known-image",
            Self::DeleteManifestIgnore => "delete-manifest-ignore",
            Self::NotExistingCommand => {
                proof {
                    reveal_strlit("");
                }
                assert(""@ =~= Seq::<char>::empty());
                ""
            },
        }
    }

    /// Says what is wrong with the arguments of the command, if anything.
    pub fn examine_args(&self, args: &Vec<String>) -> (r: Option<ArgumentError>)
        ensures
            r == argument_error(*self, args.deep_view()),
    {
        match self {
            Self::AddKnownImage => {
                if args.len() < 5 {
                    return Some(ArgumentError::MissingParameters);
                }
                if !list_contains(&Self::get_types(), &args[4]) {
                    return Some(ArgumentError::UnknownKind);
                }
                None
            },
            Self::AddManifestIgnore | Self::DeleteKnownImage | Self::DeleteManifestIgnore => {
                if args.len() < 3 {
                    return Some(ArgumentError::MissingParameters);
                }
                None
            },
            _ => None,
        }
    }

    /// Whether the arguments are those that the command takes.
    pub fn check_args(&self, args: &Vec<String>) -> (r: bool)
        ensures
            r == (argument_error(*self, args.deep_view()) is None),
    {
        self.examine_args(args).is_none()
    }
}

/// The word of a command calls that command.
pub proof fn lemma_command_text_names_command(command: CMD)
    requires
        command != CMD::NotExistingCommand,
    ensures
        command_named(command_text(command)) == command,
{
    reveal_strlit("analyze");
    reveal_strlit("list-known-images");
    reveal_strlit("list-manifest-ignore");
    reveal_strlit("add-known-image");
    reveal_strlit("add-manifest-ignore");
    reveal_strlit("delete-known-image");
    reveal_strlit("delete-manifest-ignore");
    assert("analyze"@.len() == 7);
    assert("list-known-images"@.len() == 17);
    assert("list-manifest-ignore"@.len() == 20);
    assert("add-known-image"@.len() == 15);
    assert("add-manifest-ignore"@.len() == 19);
    assert("delete-known-image"@.len() == 18);
    assert("delete-manifest-ignore"@.len() == 22);
}

} // verus!
