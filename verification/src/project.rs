//! The project that the editor has open and the tree of files shown for it.
//!
//! Paths are kept as text. Reading the disk is the caller's business: it hands
//! in what it found as an [`FsEntry`] and gets the tree to show.

use vstd::prelude::*;
use vstd::string::StringExecFns;

verus! {

/// Whether two pieces of text are the same.
fn same_text(a: &str, b: &str) -> (same: bool)
    ensures
        same == (a@ == b@),
{
    a.to_owned() == b.to_owned()
}

/// Calls `std::path::Path::file_name` on `path` and hands back the component it
/// finds as text.
///
/// Which component that is, and whether there is one, goes by the path rules of
/// the platform; the contract claims nothing about it.
#[verifier::external_body]
fn last_component(path: &str) -> (name: Option<String>) {
    match std::path::Path::new(path).file_name() {
        Some(name) => Some(name.to_string_lossy().into_owned()),
        None => None,
    }
}

/// What an item of the file explorer is.
#[derive(Clone, Copy, Debug, PartialEq, Eq, Structural)]
pub enum FileExplorerItemType {
    Folder,
    File,
}

impl FileExplorerItemType {
    /// The name of the kind, as it is shown.
    pub open spec fn text(self) -> Seq<char> {
        match self {
            FileExplorerItemType::Folder => "Folder"@,
            FileExplorerItemType::File => "File"@,
        }
    }

    /// The name of the kind: `Folder` or `File`.
    pub fn to_string(&self) -> (text: String)
        ensures
            text@ == self.text(),
    {
        match self {
            FileExplorerItemType::Folder => String::from_str("Folder"),
            FileExplorerItemType::File => String::from_str("File"),
        }
    }
}

/// The icon shown beside a file, chosen by the file's extension.
#[derive(Clone, Copy, Debug, PartialEq, Eq, Structural)]
pub enum FileIcon {
    Pdf,
    C,
    CSharp,
    Cpp,
    Css,
    Csv,
    Doc,
    Html,
    Ini,
    Jpg,
    Js,
    Jsx,
    Md,
    Png,
    Ppt,
    Py,
    Rs,
    Sql,
    Svg,
    Ts,
    Tsx,
    Text,
    Vue,
    Xls,
    Zip,
    /// Any other file.
    File,
}

/// The icon for a file with the extension `extension`. Extensions are compared
/// as they are written: `PDF` is not `pdf`.
pub open spec fn icon_of(extension: Seq<char>) -> FileIcon {
    if extension == "pdf"@ {
        FileIcon::Pdf
    } else if extension == "c"@ {
        FileIcon::C
    } else if extension == "cs"@ {
        FileIcon::CSharp
    } else if extension == "cpp"@ {
        FileIcon::Cpp
    } else if extension == "css"@ {
        FileIcon::Css
    } else if extension == "csv"@ {
        FileIcon::Csv
    } else if extension == "doc"@ {
        FileIcon::Doc
    } else if extension == "html"@ {
        FileIcon::Html
    } else if extension == "ini"@ {
        FileIcon::Ini
    } else if extension == "jpg"@ {
        FileIcon::Jpg
    } else if extension == "js"@ {
        FileIcon::Js
    } else if extension == "jsx"@ {
        FileIcon::Jsx
    } else if extension == "md"@ {
        FileIcon::Md
    } else if extension == "png"@ {
        FileIcon::Png
    } else if extension == "ppt"@ {
        FileIcon::Ppt
    } else if extension == "py"@ {
        FileIcon::Py
    } else if extension == "rs"@ {
        FileIcon::Rs
    } else if extension == "sql"@ {
        FileIcon::Sql
    } else if extension == "svg"@ {
        FileIcon::Svg
    } else if extension == "ts"@ {
        FileIcon::Ts
    } else if extension == "tsx"@ {
        FileIcon::Tsx
    } else if extension == "txt"@ {
        FileIcon::Text
    } else if extension == "vue"@ {
        FileIcon::Vue
    } else if extension == "xls"@ {
        FileIcon::Xls
    } else if extension == "zip"@ {
        FileIcon::Zip
    } else {
        FileIcon::File
    }
}

/// A file or a folder in the tree of the file explorer.
#[derive(Debug, PartialEq, Eq)]
pub struct FileExplorerItem {
    /// Where the item is.
    pub path: String,
    /// The last component of `path`.
    pub name: String,
    pub item_type: FileExplorerItemType,
    /// What follows the last dot of the name, if anything does.
    pub extension: Option<String>,
    /// What a folder holds. A file has no children.
    pub children: Vec<FileExplorerItem>,
}

/// What a [`FileExplorerItem`] is, with its texts as sequences of characters.
pub struct FileExplorerItemView {
    pub path: Seq<char>,
    pub name: Seq<char>,
    pub item_type: FileExplorerItemType,
    pub extension: Option<Seq<char>>,
    pub children: Seq<FileExplorerItemView>,
}

/// The text in `text`, if there is one.
pub open spec fn text_of(text: Option<String>) -> Option<Seq<char>> {
    match text {
        Some(text) => Some(text@),
        None => None,
    }
}

/// The view of `item`, and below it the views of its children, in order.
pub open spec fn item_view(item: FileExplorerItem) -> FileExplorerItemView
    decreases item,
{
    FileExplorerItemView {
        path: item.path@,
        name: item.name@,
        item_type: item.item_type,
        extension: text_of(item.extension),
        children: Seq::new(
            item.children@.len(),
            |i: int|
                if 0 <= i < item.children@.len() {
                    item_view(item.children@[i])
                } else {
                    arbitrary()
                },
        ),
    }
}

impl View for FileExplorerItem {
    type V = FileExplorerItemView;

    open spec fn view(&self) -> FileExplorerItemView {
        item_view(*self)
    }
}

impl FileExplorerItem {
    /// The line that describes the item: its path, the last component of that
    /// path, and its kind. The `name` field is not part of it.
    pub open spec fn text(&self, last_component: Seq<char>) -> Seq<char> {
        "Path: "@ + self.path@ + ", Name: "@ + last_component + ", Item Type: "@
            + self.item_type.text()
    }

    /// The line that describes the item, given the last component of its path.
    pub fn describe(&self, last_component: &str) -> (text: String)
        ensures
            text@ == self.text(last_component@),
    {
        let mut text = String::from_str("Path: ");
        text.append(self.path.as_str());
        text.append(", Name: ");
        text.append(last_component);
        text.append(", Item Type: ");
        text.append(self.item_type.to_string().as_str());
        text
    }

    /// The line that describes the item: its path, the last component of that
    /// path as the platform's path rules find it, and its kind. There is no line
    /// for a path without a last component.
    pub fn to_string(&self) -> (text: Option<String>)
        ensures
            text matches Some(line) ==> exists|last_component: Seq<char>|
                line@ == #[trigger] self.text(last_component),
    {
        match last_component(self.path.as_str()) {
            Some(name) => {
                let line = self.describe(name.as_str());
                assert(line@ == self.text(name@));
                Some(line)
            },
            None => None,
        }
    }

    /// The icon to show beside `item`, by its extension.
    pub fn resolve_file_icon(item: &FileExplorerItem) -> (icon: FileIcon)
        requires
            item.extension is Some,
        ensures
            icon == icon_of(item.extension->0@),
    {
        let extension = match &item.extension {
            Some(extension) => extension.as_str(),
            None => {
                return FileIcon::File;
            },
        };
        if same_text(extension, "pdf") {
            FileIcon::Pdf
        } else if same_text(extension, "c") {
            FileIcon::C
        } else if same_text(extension, "cs") {
            FileIcon::CSharp
        } else if same_text(extension, "cpp") {
            FileIcon::Cpp
        } else if same_text(extension, "css") {
            FileIcon::Css
        } else if same_text(extension, "csv") {
            FileIcon::Csv
        } else if same_text(extension, "doc") {
            FileIcon::Doc
        } else if same_text(extension, "html") {
            FileIcon::Html
        } else if same_text(extension, "ini") {
            FileIcon::Ini
        } else if same_text(extension, "jpg") {
            FileIcon::Jpg
        } else if same_text(extension, "js") {
            FileIcon::Js
        } else if same_text(extension, "jsx") {
            FileIcon::Jsx
        } else if same_text(extension, "md") {
            FileIcon::Md
        } else if same_text(extension, "png") {
            FileIcon::Png
        } else if same_text(extension, "ppt") {
            FileIcon::Ppt
        } else if same_text(extension, "py") {
            FileIcon::Py
        } else if same_text(extension, "rs") {
            FileIcon::Rs
        } else if same_text(extension, "sql") {
            FileIcon::Sql
        } else if same_text(extension, "svg") {
            FileIcon::Svg
        } else if same_text(extension, "ts") {
            FileIcon::Ts
        } else if same_text(extension, "tsx") {
            FileIcon::Tsx
        } else if same_text(extension, "txt") {
            FileIcon::Text
        } else if same_text(extension, "vue") {
            FileIcon::Vue
        } else if same_text(extension, "xls") {
            FileIcon::Xls
        } else if same_text(extension, "zip") {
            FileIcon::Zip
        } else {
            FileIcon::File
        }
    }
}

/// What was found at one path when the disk was read: a file, or a folder with
/// what was found inside it.
#[derive(Debug, PartialEq, Eq)]
pub struct FsEntry {
    /// The path that was looked at.
    pub path: String,
    /// The last component of the path; `None` for a path that has none, such as
    /// a root or one that ends in `..`.
    pub name: Option<String>,
    /// What follows the last dot of the name, if anything does.
    pub extension: Option<String>,
    /// Whether the path is a folder.
    pub is_dir: bool,
    /// Whether the folder could be read. Says nothing of a file.
    pub readable: bool,
    /// What was found inside the folder, in the order in which it was found.
    /// Empty for a file and for a folder that could not be read.
    pub entries: Vec<FsEntry>,
}

/// What an [`FsEntry`] is, with its texts as sequences of characters.
pub struct FsEntryView {
    pub path: Seq<char>,
    pub name: Option<Seq<char>>,
    pub extension: Option<Seq<char>>,
    pub is_dir: bool,
    pub readable: bool,
    pub entries: Seq<FsEntryView>,
}

/// The view of `entry`, and below it the views of what was found inside it, in
/// order.
pub open spec fn entry_view(entry: FsEntry) -> FsEntryView
    decreases entry,
{
    FsEntryView {
        path: entry.path@,
        name: text_of(entry.name),
        extension: text_of(entry.extension),
        is_dir: entry.is_dir,
        readable: entry.readable,
        entries: Seq::new(
            entry.entries@.len(),
            |i: int|
                if 0 <= i < entry.entries@.len() {
                    entry_view(entry.entries@[i])
                } else {
                    arbitrary()
                },
        ),
    }
}

impl View for FsEntry {
    type V = FsEntryView;

    open spec fn view(&self) -> FsEntryView {
        entry_view(*self)
    }
}

/// The view of a folder's entries holds the views of the entries, in order.
proof fn lemma_entries_view(entry: FsEntry)
    ensures
        entry@.entries.len() == entry.entries@.len(),
        forall|k: int|
            0 <= k < entry.entries@.len() ==> entry@.entries[k] == #[trigger] entry.entries@[k]@,
{
}

/// The view of an item's children holds the views of the children, in order.
proof fn lemma_children_view(item: FileExplorerItem)
    ensures
        item@.children.len() == item.children@.len(),
        forall|k: int|
            0 <= k < item.children@.len() ==> item@.children[k] == #[trigger] item.children@[k]@,
{
}

/// The item of the file explorer for what was found at one path.
///
/// There is none for a path without a last component, nor for a folder that
/// could not be read. A folder holds the items of what was found inside it,
/// in the order in which it was found, without those for which there is no
/// item. A file holds nothing.
pub open spec fn explorer_item(entry: FsEntryView) -> Option<FileExplorerItemView>
    decreases entry, 0nat,
{
    match entry.name {
        None => None,
        Some(name) => if entry.is_dir {
            if entry.readable {
                Some(
                    FileExplorerItemView {
                        path: entry.path,
                        name,
                        item_type: FileExplorerItemType::Folder,
                        extension: entry.extension,
                        children: explorer_items(entry.entries, entry.entries.len() as int),
                    },
                )
            } else {
                None
            }
        } else {
            Some(
                FileExplorerItemView {
                    path: entry.path,
                    name,
                    item_type: FileExplorerItemType::File,
                    extension: entry.extension,
                    children: Seq::empty(),
                },
            )
        },
    }
}

/// The items for the first `n` of `entries`, in order, without those of the
/// entries for which there is none.
pub open spec fn explorer_items(entries: Seq<FsEntryView>, n: int) -> Seq<FileExplorerItemView>
    decreases entries, n,
{
    if n <= 0 || n > entries.len() {
        Seq::empty()
    } else {
        let earlier = explorer_items(entries, n - 1);
        match explorer_item(entries[n - 1]) {
            Some(item) => earlier.push(item),
            None => earlier,
        }
    }
}

/// The project that is open: where it is, the tree of its files, and whether
/// that tree has been loaded.
#[derive(Debug, PartialEq, Eq)]
pub struct Project {
    pub project_path: Option<String>,
    pub root_item: Option<FileExplorerItem>,
    pub loaded: bool,
}

impl Default for Project {
    /// No project: no path, no tree, nothing loaded.
    fn default() -> (project: Project)
        ensures
            project.project_path is None,
            project.root_item is None,
            !project.loaded,
    {
        Project { project_path: None, root_item: None, loaded: false }
    }
}

impl Project {
    /// No project: no path, no tree, nothing loaded.
    pub fn new() -> (project: Project)
        ensures
            project.project_path is None,
            project.root_item is None,
            !project.loaded,
    {
        Project { project_path: None, root_item: None, loaded: false }
    }

    /// Builds the tree of the file explorer from what was found on disk at the
    /// project's path and below it.
    pub fn load_files(entry: &FsEntry) -> (item: Option<FileExplorerItem>)
        ensures
            item is Some <==> explorer_item(entry@) is Some,
            item matches Some(found) ==> Some(found@) == explorer_item(entry@),
        decreases entry,
    {
        let name = match &entry.name {
            Some(name) => name.clone(),
            None => {
                return None;
            },
        };
        let extension = match &entry.extension {
            Some(extension) => Some(extension.clone()),
            None => None,
        };
        let mut children: Vec<FileExplorerItem> = Vec::new();
        let ghost mut shown: Seq<FileExplorerItemView> = Seq::empty();
        let item_type = if entry.is_dir {
            if !entry.readable {
                return None;
            }
            let entries = &entry.entries;
            let ghost found = entry@.entries;
            proof {
                lemma_entries_view(*entry);
            }
            let mut i: usize = 0;
            while i < entries.len()
                invariant
                    i <= entries.len(),
                    entry.entries == *entries,
                    found.len() == entries@.len(),
                    forall|k: int| 0 <= k < entries@.len() ==> found[k] == #[trigger] entries@[k]@,
                    shown == explorer_items(found, i as int),
                    shown.len() == children@.len(),
                    forall|k: int| 0 <= k < children@.len() ==> shown[k] == #[trigger] children@[k]@,
                decreases entries.len() - i,
            {
                match Project::load_files(&entries[i]) {
                    Some(child) => {
                        proof {
                            shown = shown.push(child@);
                        }
                        children.push(child);
                    },
                    None => {},
                }
                i += 1;
            }
            assert(shown == explorer_item(entry@)->0.children);
            FileExplorerItemType::Folder
        } else {
            assert(shown == explorer_item(entry@)->0.children);
            FileExplorerItemType::File
        };
        let item = FileExplorerItem {
            path: entry.path.clone(),
            name,
            item_type,
            extension,
            children,
        };
        proof {
            lemma_children_view(item);
            assert(item@.children.len() == shown.len());
            assert forall|k: int| 0 <= k < shown.len() implies item@.children[k] == shown[k] by {
                assert(shown[k] == children@[k]@);
                assert(item@.children[k] == item.children@[k]@);
            }
            assert(item@.children =~= shown);
        }
        Some(item)
    }

    /// Whether `item` is the root of the project's tree: whether it is where the
    /// root is.
    pub fn is_root(project: &Project, item: &FileExplorerItem) -> (root: bool)
        requires
            project.root_item is Some,
        ensures
            root == (item.path@ == project.root_item->0.path@),
    {
        match &project.root_item {
            Some(root_item) => item.path == root_item.path,
            None => false,
        }
    }

    /// The path to read from disk on this repaint, if any: the folder that was
    /// just picked, or else the project's own path as long as its tree has not
    /// been loaded.
    pub fn path_to_load(&self, picked: &Option<String>) -> (path: Option<String>)
        ensures
            text_of(path) == match *picked {
                Some(picked) => Some(picked@),
                None => if self.loaded {
                    None
                } else {
                    text_of(self.project_path)
                },
            },
    {
        match picked {
            Some(picked) => Some(picked.clone()),
            None => if self.loaded {
                None
            } else {
                match &self.project_path {
                    Some(path) => Some(path.clone()),
                    None => None,
                }
            },
        }
    }

    /// Makes `path` the project's path and what was found there its tree, and
    /// marks the project as loaded, whether or not there is a tree to show.
    pub fn open(&mut self, path: String, found: &FsEntry)
        ensures
            final(self).project_path == Some(path),
            final(self).loaded,
            final(self).root_item is Some <==> explorer_item(found@) is Some,
            final(self).root_item matches Some(root) ==> Some(root@) == explorer_item(found@),
    {
        self.project_path = Some(path);
        self.root_item = Project::load_files(found);
        self.loaded = true;
    }

    /// The name under which `item` is listed: `Project` for the folder at the
    /// root of the project's tree, the item's own name for anything else.
    pub fn listed_name(project: &Project, item: &FileExplorerItem) -> (name: String)
        requires
            item.item_type is Folder ==> project.root_item is Some,
        ensures
            name@ == if item.item_type is Folder && item.path@ == project.root_item->0.path@ {
                "Project"@
            } else {
                item.name@
            },
    {
        match item.item_type {
            FileExplorerItemType::Folder => if Project::is_root(project, item) {
                String::from_str("Project")
            } else {
                item.name.clone()
            },
            FileExplorerItemType::File => item.name.clone(),
        }
    }

    /// The line that describes the project: its path and whether it is loaded.
    /// The tree is not spelled out.
    pub open spec fn text(&self) -> Seq<char> {
        "Path: "@ + self.project_path->0@ + ", Root Item: None, Loaded: "@ + if self.loaded {
            "true"@
        } else {
            "false"@
        }
    }

    /// The line that describes a project that has a path.
    pub fn to_string(&self) -> (text: String)
        requires
            self.project_path is Some,
        ensures
            text@ == self.text(),
    {
        let mut text = String::from_str("Path: ");
        match &self.project_path {
            Some(path) => text.append(path.as_str()),
            None => {},
        }
        text.append(", Root Item: None, Loaded: ");
        if self.loaded {
            text.append("true");
        } else {
            text.append("false");
        }
        text
    }
}

} // verus!
