//! The storage directory seen as a reliable store of blobs keyed by file name,
//! and what the handlers' plans do to it over several requests.
use vstd::prelude::*;
use crate::codec::encoded;
use crate::service::{Status, delete_status_of, file_name_of, show_text, FileRead};
use crate::task::TaskView;

verus! {

/// The storage directory: the text of each file, by file name.
pub type Files = Map<Seq<char>, Seq<char>>;

/// The directory after a create wrote task `t` under identifier `id`.
pub open spec fn after_create(fs: Files, id: Seq<char>, t: TaskView) -> Files {
    fs.insert(file_name_of(id), encoded(t))
}

/// The directory after creates under `ids` of the tasks `ts`, in order.
pub open spec fn after_creates(fs: Files, ids: Seq<Seq<char>>, ts: Seq<TaskView>) -> Files
    decreases ids.len(),
{
    if ids.len() == 0 || ts.len() == 0 {
        fs
    } else {
        after_create(after_creates(fs, ids.drop_last(), ts.drop_last()), ids.last(), ts.last())
    }
}

/// Removing a file: `None` where there is none of that name.
pub open spec fn after_remove(fs: Files, name: Seq<char>) -> Option<Files> {
    if fs.contains_key(name) { Some(fs.remove(name)) } else { None }
}

/// Reading a file: `None` where there is none of that name.
pub open spec fn read_file(fs: Files, name: Seq<char>) -> Option<Seq<char>> {
    if fs.contains_key(name) { Some(fs[name]) } else { None }
}

/// The names that a listing of the directory gives.
pub open spec fn listing(fs: Files) -> Set<Seq<char>> {
    fs.dom()
}

/// The file names of the given identifiers.
pub open spec fn file_names(ids: Seq<Seq<char>>) -> Seq<Seq<char>> {
    ids.map_values(|id: Seq<char>| file_name_of(id))
}

/// Two identifiers with the same file name are the same.
pub proof fn lemma_file_name_injective(a: Seq<char>, b: Seq<char>)
    requires
        file_name_of(a) == file_name_of(b),
    ensures
        a == b,
{
    assert(file_name_of(a).len() == a.len() + ".json"@.len());
    assert(file_name_of(b).len() == b.len() + ".json"@.len());
    assert(a.len() == b.len());
    assert(a =~= file_name_of(a).subrange(0, a.len() as int));
    assert(b =~= file_name_of(b).subrange(0, b.len() as int));
}

/// A created task is listed under its file name; reading that file gives back
/// the text it was written as, the object of its three fields, and the read
/// answer carries that text; where serde_json reads the three fields back from
/// that text, it decodes to the created task.
pub proof fn lemma_create_list_read(fs: Files, id: Seq<char>, t: TaskView, content: String)
    requires
        content@ == encoded(t),
    ensures
        listing(after_create(fs, id, t)).contains(file_name_of(id)),
        read_file(after_create(fs, id, t), file_name_of(id)) == Some(encoded(t)),
        show_text(file_name_of(id), FileRead::Content(content))
            == "Task "@ + file_name_of(id) + ":\n"@ + encoded(t),
        crate::codec::json_object_of(encoded(t)) matches Some(es) ==> (
            crate::codec::field_text(es, "name"@) == Some(t.name)
            && crate::codec::field_text(es, "priority"@) == Some(t.priority)
            && crate::codec::field_text(es, "details"@) == Some(t.details)
            ==> crate::codec::decoded(encoded(t)) == Some(t)),
{
}

/// Once a delete has removed a file, a second delete of it finds none and is
/// answered with a server error; and a delete of a name that the directory
/// does not hold is answered so.
pub proof fn lemma_delete_twice(fs: Files, name: Seq<char>)
    ensures
        after_remove(fs, name) matches Some(fs2) ==> {
            &&& after_remove(fs2, name) is None
            &&& delete_status_of(after_remove(fs2, name) is Some) == Status::InternalServerError
        },
        !fs.contains_key(name) ==> delete_status_of(after_remove(fs, name) is Some)
            == Status::InternalServerError,
{
}

/// After creates under distinct fresh identifiers, and no delete, the listing
/// holds what it held before and exactly the new file names, one more name
/// per create.
pub proof fn lemma_creates_listed(fs: Files, ids: Seq<Seq<char>>, ts: Seq<TaskView>)
    requires
        fs.dom().finite(),
        ids.len() == ts.len(),
        ids.no_duplicates(),
        forall|i: int| 0 <= i < ids.len() ==> !fs.contains_key(#[trigger] file_name_of(ids[i])),
    ensures
        listing(after_creates(fs, ids, ts)) == listing(fs) + file_names(ids).to_set(),
        listing(after_creates(fs, ids, ts)).len() == listing(fs).len() + ids.len(),
    decreases ids.len(),
{
    if ids.len() == 0 {
        assert(file_names(ids).to_set() =~= Set::empty());
        assert(listing(fs) + Set::empty() =~= listing(fs));
    } else {
        let pre = ids.drop_last();
        assert(pre.no_duplicates()) by {
            assert forall|i: int, j: int| 0 <= i < j < pre.len() implies pre[i] != pre[j] by {
                assert(pre[i] == ids[i] && pre[j] == ids[j]);
            }
        }
        assert forall|i: int| 0 <= i < pre.len() implies !fs.contains_key(#[trigger] file_name_of(pre[i])) by {
            assert(pre[i] == ids[i]);
        }
        lemma_creates_listed(fs, pre, ts.drop_last());
        let before = after_creates(fs, pre, ts.drop_last());
        let last = file_name_of(ids.last());
        assert(file_names(ids) =~= file_names(pre).push(last));
        assert(file_names(ids).to_set() =~= file_names(pre).to_set().insert(last)) by {
            file_names(pre).lemma_push_to_set_commute(last);
        }
        assert(!before.contains_key(last)) by {
            if before.contains_key(last) {
                assert(!fs.contains_key(last));
                assert(file_names(pre).to_set().contains(last));
                let k = choose|k: int| 0 <= k < file_names(pre).len() && file_names(pre)[k] == last;
                lemma_file_name_injective(pre[k], ids.last());
                assert(ids[k] == ids[ids.len() - 1]);
            }
        }
        assert(listing(after_creates(fs, ids, ts)) =~= listing(before).insert(last));
        assert(listing(fs) + file_names(ids).to_set() =~= listing(before).insert(last));
    }
}

} // verus!
