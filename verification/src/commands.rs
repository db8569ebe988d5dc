//! Rename intents and the commands that compute them.
use vstd::prelude::*;
use vstd::string::StringExecFns;
use crate::extensions::{
    corrected_path, extensions_of_description, extensions_of_mime_type,
    find_extensions_from_content, fix_extension,
};
use crate::text::{
    char_replaced, has_no_separator, replace_all, replace_char, replaced, same_text,
    separator_free,
};
use crate::trusted::{
    compiles, lowercase_text, path_with_extension, pattern_compiles, pattern_replaced,
    replace_matches, to_lowercase, to_uppercase, transliterate, transliterated_text,
    uppercase_text, with_extension,
};

verus! {

/// One proposed rename: the path a file has and the path it should get.
#[derive(Debug)]
pub struct RenameIntent {
    pub old_name: String,
    pub new_name: String,
}

impl Clone for RenameIntent {
    fn clone(&self) -> (copy: Self)
        ensures
            copy == *self,
    {
        RenameIntent { old_name: self.old_name.clone(), new_name: self.new_name.clone() }
    }
}

impl RenameIntent {
    /// The intent proposes a path other than the one the file has. Paths are
    /// compared character by character.
    pub open spec fn changed(&self) -> bool {
        self.old_name@ != self.new_name@
    }

    /// The line that shows this intent: `old → new` for a change, `old =`
    /// for a file that keeps its name.
    pub open spec fn line(&self) -> Seq<char> {
        if self.changed() {
            self.old_name@ + " → "@ + self.new_name@
        } else {
            self.old_name@ + " ="@
        }
    }

    /// Is the new name different from the old one?
    pub fn is_changed(&self) -> (changed: bool)
        ensures
            changed == self.changed(),
            changed == (self.old_name@ != self.new_name@),
    {
        self.old_name != self.new_name
    }

    /// The text that shows this intent to the user.
    pub fn to_text(&self) -> (text: String)
        ensures
            text@ == self.line(),
    {
        let mut text = self.old_name.clone();
        if self.is_changed() {
            text.append(" → ");
            text.append(self.new_name.as_str());
        } else {
            text.append(" =");
        }
        text
    }
}

/// A rule that computes a new path from an old one.
pub trait RenameCommand {
    /// The command's parameters can be applied: `suggest_new_name` asks for
    /// this, and `is_usable` tests it.
    spec fn usable(&self) -> bool;

    /// The path that this command proposes for `old_name`.
    spec fn target(&self, old_name: Seq<char>) -> Seq<char>;

    /// Tests whether the command can be applied.
    fn is_usable(&self) -> (ok: bool)
        ensures
            ok == self.usable(),
    ;

    /// Computes the path proposed for `old_name`.
    fn suggest_new_name(&self, old_name: &str) -> (new_name: String)
        requires
            self.usable(),
        ensures
            new_name@ == self.target(old_name@),
    ;

    /// Computes the path proposed for `old_name`, or nothing where the
    /// command cannot be applied.
    fn try_suggest_new_name(&self, old_name: &str) -> (new_name: Option<String>)
        ensures
            new_name is Some <==> self.usable(),
            new_name matches Some(name) ==> name@ == self.target(old_name@),
    {
        if self.is_usable() {
            Some(self.suggest_new_name(old_name))
        } else {
            None
        }
    }

    /// Computes one intent per file, in the order of `files`.
    fn suggest_renames(&self, files: &Vec<String>) -> (intents: Vec<RenameIntent>)
        requires
            self.usable(),
        ensures
            intents@.len() == files@.len(),
            forall|i: int|
                0 <= i < files@.len() ==> (#[trigger] intents@[i]).old_name@ == files@[i]@
                    && intents@[i].new_name@ == self.target(files@[i]@),
    {
        let mut intents: Vec<RenameIntent> = Vec::new();
        let mut i: usize = 0;
        while i < files.len()
            invariant
                self.usable(),
                i <= files.len(),
                intents@.len() == i,
                forall|j: int|
                    0 <= j < i ==> (#[trigger] intents@[j]).old_name@ == files@[j]@
                        && intents@[j].new_name@ == self.target(files@[j]@),
            decreases files.len() - i,
        {
            let new_name = self.suggest_new_name(files[i].as_str());
            intents.push(RenameIntent { old_name: files[i].clone(), new_name });
            i += 1;
        }
        intents
    }
}

/// `intents` holds, file by file and in order, what `command` proposes:
/// what `suggest_renames` returns.
pub open spec fn built_from<C: RenameCommand>(
    intents: Seq<RenameIntent>,
    command: &C,
    files: Seq<String>,
) -> bool {
    &&& intents.len() == files.len()
    &&& forall|i: int|
        0 <= i < files.len() ==> (#[trigger] intents[i]).old_name@ == files[i]@
            && intents[i].new_name@ == command.target(files[i]@)
}

/// Turns the path into plain ASCII and its spaces into underscores.
pub struct Normalize;

impl RenameCommand for Normalize {
    open spec fn usable(&self) -> bool {
        true
    }

    open spec fn target(&self, old_name: Seq<char>) -> Seq<char> {
        char_replaced(transliterated_text(old_name), ' ', '_')
    }

    fn is_usable(&self) -> (ok: bool) {
        true
    }

    fn suggest_new_name(&self, old_name: &str) -> (new_name: String) {
        let ascii = transliterate(old_name);
        replace_char(ascii.as_str(), ' ', '_')
    }
}

/// Adds a text in front of the whole path.
pub struct Prefix {
    pub prefix: String,
}

impl RenameCommand for Prefix {
    open spec fn usable(&self) -> bool {
        true
    }

    open spec fn target(&self, old_name: Seq<char>) -> Seq<char> {
        self.prefix@ + old_name
    }

    fn is_usable(&self) -> (ok: bool) {
        true
    }

    fn suggest_new_name(&self, old_name: &str) -> (new_name: String) {
        let mut new_name = self.prefix.clone();
        new_name.append(old_name);
        new_name
    }
}

/// Replaces the extension of the path, or adds one; the empty extension
/// removes it.
pub struct SetExtension {
    pub extension: String,
}

impl RenameCommand for SetExtension {
    /// An extension cannot hold a path separator.
    open spec fn usable(&self) -> bool {
        separator_free(self.extension@)
    }

    open spec fn target(&self, old_name: Seq<char>) -> Seq<char> {
        path_with_extension(old_name, self.extension@)
    }

    fn is_usable(&self) -> (ok: bool) {
        has_no_separator(self.extension.as_str())
    }

    fn suggest_new_name(&self, old_name: &str) -> (new_name: String) {
        with_extension(old_name, self.extension.as_str())
    }
}

/// Deletes every occurrence of a text from the whole path.
pub struct Remove {
    pub pattern: String,
}

impl RenameCommand for Remove {
    open spec fn usable(&self) -> bool {
        true
    }

    open spec fn target(&self, old_name: Seq<char>) -> Seq<char> {
        replaced(old_name, self.pattern@, Seq::<char>::empty())
    }

    fn is_usable(&self) -> (ok: bool) {
        true
    }

    fn suggest_new_name(&self, old_name: &str) -> (new_name: String) {
        let nothing = String::new();
        replace_all(old_name, self.pattern.as_str(), nothing.as_str())
    }
}

/// Replaces in the whole path every occurrence of a text, or every match of
/// a regular expression.
pub struct Replace {
    pub pattern: String,
    pub replacement: String,
    pub is_regex: bool,
}

impl RenameCommand for Replace {
    /// A regular expression has to be one that the engine accepts.
    open spec fn usable(&self) -> bool {
        self.is_regex ==> pattern_compiles(self.pattern@)
    }

    open spec fn target(&self, old_name: Seq<char>) -> Seq<char> {
        if self.is_regex {
            pattern_replaced(self.pattern@, old_name, self.replacement@)
        } else {
            replaced(old_name, self.pattern@, self.replacement@)
        }
    }

    fn is_usable(&self) -> (ok: bool) {
        !self.is_regex || compiles(self.pattern.as_str())
    }

    fn suggest_new_name(&self, old_name: &str) -> (new_name: String) {
        if self.is_regex {
            replace_matches(self.pattern.as_str(), old_name, self.replacement.as_str())
        } else {
            replace_all(old_name, self.pattern.as_str(), self.replacement.as_str())
        }
    }
}

/// Turns the whole path into upper or lower case, by the Unicode rules.
pub struct ChangeCase {
    pub upper: bool,
}

impl RenameCommand for ChangeCase {
    open spec fn usable(&self) -> bool {
        true
    }

    open spec fn target(&self, old_name: Seq<char>) -> Seq<char> {
        if self.upper {
            uppercase_text(old_name)
        } else {
            lowercase_text(old_name)
        }
    }

    fn is_usable(&self) -> (ok: bool) {
        true
    }

    fn suggest_new_name(&self, old_name: &str) -> (new_name: String) {
        if self.upper {
            to_uppercase(old_name)
        } else {
            to_lowercase(old_name)
        }
    }
}

/// What the content classifier reported of one file: the MIME type of its
/// content, and a description of the content in words.
pub struct FileContent {
    pub path: String,
    pub mime_type: String,
    pub description: String,
}

/// The first report in `contents` that is about `path`, if there is one.
pub open spec fn content_of(contents: Seq<FileContent>, path: Seq<char>) -> Option<FileContent>
    decreases contents.len(),
{
    if contents.len() == 0 {
        None
    } else if contents[0].path@ == path {
        Some(contents[0])
    } else {
        content_of(contents.skip(1), path)
    }
}

/// The extensions that fit the content reported for `path`; none where
/// nothing was reported.
pub open spec fn candidates_for(contents: Seq<FileContent>, path: Seq<char>) -> Seq<Seq<char>> {
    match content_of(contents, path) {
        Some(content) => extensions_of_mime_type(content.mime_type@) + extensions_of_description(
            content.description@,
        ),
        None => Seq::empty(),
    }
}

/// Gives a file the extension that fits its content, where the one it has
/// does not. `contents` holds what is known of the files; a file that it
/// does not list keeps its name.
pub struct FixExtension {
    pub append: bool,
    pub contents: Vec<FileContent>,
}

impl FixExtension {
    /// Finds the first report about `path`.
    pub fn find_content(&self, path: &str) -> (found: Option<&FileContent>)
        ensures
            match found {
                Some(content) => content_of(self.contents@, path@) == Some(*content),
                None => content_of(self.contents@, path@) is None,
            },
    {
        let mut i: usize = 0;
        assert(self.contents@.skip(0) =~= self.contents@);
        while i < self.contents.len()
            invariant
                i <= self.contents.len(),
                content_of(self.contents@, path@) == content_of(
                    self.contents@.skip(i as int),
                    path@,
                ),
            decreases self.contents.len() - i,
        {
            if same_text(self.contents[i].path.as_str(), path) {
                return Some(&self.contents[i]);
            }
            assert(self.contents@.skip(i as int).skip(1) =~= self.contents@.skip(i + 1));
            i += 1;
        }
        None
    }
}

impl RenameCommand for FixExtension {
    open spec fn usable(&self) -> bool {
        true
    }

    open spec fn target(&self, old_name: Seq<char>) -> Seq<char> {
        corrected_path(old_name, candidates_for(self.contents@, old_name), self.append)
    }

    fn is_usable(&self) -> (ok: bool) {
        true
    }

    fn suggest_new_name(&self, old_name: &str) -> (new_name: String) {
        let possible_extensions = match self.find_content(old_name) {
            Some(content) => find_extensions_from_content(
                content.mime_type.as_str(),
                content.description.as_str(),
            ),
            None => Vec::new(),
        };
        assert(possible_extensions.deep_view() =~= candidates_for(self.contents@, old_name@));
        fix_extension(old_name, &possible_extensions, self.append)
    }
}

} // verus!
