//! The folder path that the inspection of an export gives a dashboard file:
//! the folder its metadata names, else the one folder titled like the
//! directory it lies in, else that directory or the default folder.
use vstd::prelude::*;

use crate::import::object_error;
use crate::import_flow::{general_title, general_uid, last_folder_with, lemma_last_folder_with, FolderInventoryItem};
use crate::json::{field, get_field, get_str, str_field, Json, JsonValue};
use crate::strset::views;
use crate::text::{join, join_strings, owned, str_is, trim, trim_str};

verus! {

/// The folder UID a dashboard file records under `meta.folderUid`, trimmed;
/// empty where it records none.
pub open spec fn meta_folder_uid(document: Json) -> Seq<char> {
    match field(document, "meta"@) {
        Some(meta) => match str_field(meta, "folderUid"@) {
            Some(uid) => trim(uid),
            None => Seq::empty(),
        },
        None => Seq::empty(),
    }
}

/// Entry `k` of the inventory is the one that a map keyed by folder UID
/// keeps for its UID, and it carries the title `name`.
pub open spec fn titled_entry(inv: Seq<FolderInventoryItem>, name: Seq<char>, k: int) -> bool {
    &&& 0 <= k < inv.len()
    &&& last_folder_with(inv, inv[k].uid@) == k
    &&& inv[k].title@ == name
}

/// The one kept entry titled `name`, where there is exactly one.
pub open spec fn sole_titled(inv: Seq<FolderInventoryItem>, name: Seq<char>) -> Option<int> {
    if exists|k: int|
        #[trigger] titled_entry(inv, name, k) && forall|j: int| titled_entry(inv, name, j) ==> j == k {
        Some(
            choose|k: int|
                #[trigger] titled_entry(inv, name, k) && forall|j: int| titled_entry(inv, name, j) ==> j == k,
        )
    } else {
        None
    }
}

/// A directory name that stands for the default folder: none, `.` or
/// `General`.
pub open spec fn default_folder_name(name: Seq<char>) -> bool {
    name.len() == 0 || name == "."@ || name == general_title()
}

/// The folder path of a dashboard file of an export, from its document,
/// the directory it lies in relative to the export root, and the export's
/// folder inventory.
pub open spec fn export_folder_path(
    document: Json,
    relative_parent: Seq<char>,
    inv: Seq<FolderInventoryItem>,
) -> Seq<char> {
    let uid = meta_folder_uid(document);
    let k = last_folder_with(inv, uid);
    if uid.len() > 0 && k >= 0 {
        inv[k].path@
    } else if !default_folder_name(relative_parent) && sole_titled(inv, relative_parent) is Some {
        inv[sole_titled(inv, relative_parent)->0].path@
    } else if default_folder_name(relative_parent) {
        general_title()
    } else {
        relative_parent
    }
}

fn meta_folder_uid_of(document: &JsonValue) -> (r: String)
    ensures
        r@ == meta_folder_uid(document@),
{
    match get_field(document, "meta") {
        Some(meta) => match get_str(meta, "folderUid") {
            Some(uid) => trim_str(uid.as_str()),
            None => {
                proof {
                    reveal_strlit("");
                }
                owned("")
            },
        },
        None => {
            proof {
                reveal_strlit("");
            }
            owned("")
        },
    }
}

/// The position of the last inventory entry with `uid`.
fn last_folder_index(inv: &Vec<FolderInventoryItem>, uid: &str) -> (r: Option<usize>)
    ensures
        match r {
            Some(k) => k == last_folder_with(inv@, uid@) && k < inv@.len(),
            None => last_folder_with(inv@, uid@) < 0,
        },
{
    let mut k: usize = inv.len();
    assert(inv@.take(k as int) =~= inv@);
    while k > 0
        invariant
            k <= inv@.len(),
            last_folder_with(inv@, uid@) == last_folder_with(inv@.take(k as int), uid@),
        decreases k,
    {
        proof {
            assert(inv@.take(k as int).drop_last() =~= inv@.take(k - 1));
        }
        if str_is(inv[k - 1].uid.as_str(), uid) {
            return Some(k - 1);
        }
        k = k - 1;
    }
    assert(inv@.take(0) =~= Seq::<FolderInventoryItem>::empty());
    None
}

/// The folder path under which the inspection of an export lists a
/// dashboard file; `relative_parent` is the directory of the file relative
/// to the export root, as displayed.
pub fn resolve_export_folder_path(
    document: &JsonValue,
    relative_parent: &str,
    folders: &Vec<FolderInventoryItem>,
) -> (r: String)
    ensures
        r@ == export_folder_path(document@, relative_parent@, folders@),
{
    let ghost inv = folders@;
    let uid = meta_folder_uid_of(document);
    if uid.as_str().unicode_len() > 0 {
        match last_folder_index(folders, uid.as_str()) {
            Some(k) => {
                return folders[k].path.clone();
            },
            None => {},
        }
    }
    let name = relative_parent;
    let is_default = name.unicode_len() == 0 || str_is(name, ".") || str_is(name, "General");
    proof {
        lemma_last_folder_with(inv, meta_folder_uid(document@));
    }
    if !is_default {
        let mut count: usize = 0;
        let mut first: usize = 0;
        let mut k: usize = 0;
        while k < folders.len()
            invariant
                inv == folders@,
                k <= inv.len(),
                count <= k,
                count == 0 ==> forall|j: int| 0 <= j < k ==> !titled_entry(inv, name@, j),
                count >= 1 ==> first < k && titled_entry(inv, name@, first as int),
                count == 1 ==> forall|j: int| 0 <= j < k && titled_entry(inv, name@, j) ==> j == first,
                count >= 2 ==> exists|j: int| 0 <= j < k && j != first && titled_entry(inv, name@, j),
            decreases inv.len() - k,
        {
            if str_is(folders[k].title.as_str(), name) {
                match last_folder_index(folders, folders[k].uid.as_str()) {
                    Some(p) => {
                        if p == k {
                            assert(titled_entry(inv, name@, k as int));
                            if count == 0 {
                                first = k;
                            }
                            count = count + 1;
                        }
                    },
                    None => {},
                }
            }
            k = k + 1;
        }
        proof {
            if count == 1 {
                assert(sole_titled(inv, name@) is Some);
                let c = sole_titled(inv, name@)->0;
                assert(titled_entry(inv, name@, c));
                assert(c == first);
            } else if count == 0 {
                assert(sole_titled(inv, name@) is None);
            } else {
                let j = choose|j: int| 0 <= j < k && j != first && titled_entry(inv, name@, j);
                if sole_titled(inv, name@) is Some {
                    let c = choose|c: int|
                        #[trigger] titled_entry(inv, name@, c) && forall|i: int| titled_entry(inv, name@, i) ==> i == c;
                    assert(j == c);
                    assert(first as int == c);
                }
                assert(sole_titled(inv, name@) is None);
            }
        }
        if count == 1 {
            return folders[first].path.clone();
        }
        return owned(name);
    }
    owned("General")
}


/// The trimmed `meta.folderUid` of a document, where it records one.
pub open spec fn meta_folder_uid_opt(document: Json) -> Option<Seq<char>> {
    match field(document, "meta"@) {
        Some(meta) => match str_field(meta, "folderUid"@) {
            Some(uid) => Some(trim(uid)),
            None => None,
        },
        None => None,
    }
}

/// The folder path that the directories of a file name: the default folder
/// for none, else the directory names joined with ` / `.
pub open spec fn directory_folder_path(parts: Seq<Seq<char>>) -> Seq<char> {
    if parts.len() == 0 {
        general_title()
    } else {
        join(parts, " / "@)
    }
}

/// The folder path of a dashboard file to be imported: the default folder
/// where its metadata names none or the default one; else the path, or
/// else the title, of the inventory folder it names; else the directories
/// the file lies in below the import root (`parts`). An error where the
/// document is no object.
pub open spec fn source_folder_path(
    document: Json,
    parts: Seq<Seq<char>>,
    inv: Seq<FolderInventoryItem>,
) -> Result<Seq<char>, Seq<char>> {
    if !(document is Object) {
        Err(object_error())
    } else {
        match meta_folder_uid_opt(document) {
            Some(uid) => if uid.len() == 0 || uid == general_uid() {
                Ok(general_title())
            } else {
                let k = last_folder_with(inv, uid);
                if k >= 0 && inv[k].path@.len() > 0 {
                    Ok(inv[k].path@)
                } else if k >= 0 && inv[k].title@.len() > 0 {
                    Ok(inv[k].title@)
                } else {
                    Ok(directory_folder_path(parts))
                }
            },
            None => Ok(directory_folder_path(parts)),
        }
    }
}

fn meta_folder_uid_opt_of(document: &JsonValue) -> (r: Option<String>)
    ensures
        match r {
            Some(u) => meta_folder_uid_opt(document@) == Some(u@),
            None => meta_folder_uid_opt(document@) is None,
        },
{
    match get_field(document, "meta") {
        Some(meta) => match get_str(meta, "folderUid") {
            Some(uid) => Some(trim_str(uid.as_str())),
            None => None,
        },
        None => None,
    }
}

fn directory_folder_path_of(parts: &Vec<String>) -> (r: String)
    ensures
        r@ == directory_folder_path(views(parts@)),
{
    if parts.len() == 0 {
        owned("General")
    } else {
        join_strings(parts.as_slice(), " / ")
    }
}

/// Resolves the folder path of a dashboard file to be imported; `parts`
/// are the directories the file lies in below the import root.
pub fn resolve_source_dashboard_folder_path(
    document: &JsonValue,
    parts: &Vec<String>,
    folders: &Vec<FolderInventoryItem>,
) -> (r: Result<String, String>)
    ensures
        match r {
            Ok(p) => source_folder_path(document@, views(parts@), folders@) == Ok::<Seq<char>, Seq<char>>(p@),
            Err(e) => source_folder_path(document@, views(parts@), folders@) == Err::<Seq<char>, Seq<char>>(e@),
        },
{
    match document {
        JsonValue::Object { .. } => {},
        _ => {
            return Err(owned("Dashboard payload must be a JSON object."));
        },
    }
    proof {
        assert(views(parts@) == parts@.map_values(|p: String| p@));
    }
    match meta_folder_uid_opt_of(document) {
        Some(uid) => {
            if uid.as_str().unicode_len() == 0 || str_is(uid.as_str(), "general") {
                return Ok(owned("General"));
            }
            proof {
                lemma_last_folder_with(folders@, uid@);
            }
            match last_folder_index(folders, uid.as_str()) {
                Some(k) => {
                    if folders[k].path.as_str().unicode_len() > 0 {
                        return Ok(folders[k].path.clone());
                    }
                    if folders[k].title.as_str().unicode_len() > 0 {
                        return Ok(folders[k].title.clone());
                    }
                    Ok(directory_folder_path_of(parts))
                },
                None => Ok(directory_folder_path_of(parts)),
            }
        },
        None => Ok(directory_folder_path_of(parts)),
    }
}

} // verus!
