//! Bundling selected output entities into one downloadable tar archive.
//!
//! For each selected entity the archive holds one directory-less entry: the
//! entity's converted bytes under a name derived from the original file
//! name — the source format's extension stripped if present, the name
//! truncated to at most 64 characters (counting characters, not storage
//! units), and the target format's extension appended. Entries carry mode
//! `0o644`; sizes and checksums are set per the tar format. An empty
//! selection is a no-op, not an error; any entry failure fails the whole
//! archive, since a partial archive is not useful.

use vstd::prelude::*;
use vstd::string::StrSliceExecFns;
use vstd::string::StringExecFns;

use crate::format::Format;
use crate::store::{ImageEntity, ImageStore};
use crate::text;

verus! {

/// The longest an archive entry's base name may be, in characters.
pub open spec fn name_limit() -> int {
    64
}

/// The base name of an entry: the original name with the source format's
/// `.` extension stripped off if it ends with it, then cut to at most 64
/// characters.
pub open spec fn stripped_name(name: Seq<char>, source: Format) -> Seq<char> {
    let suffix = seq!['.'].add(source.ext());
    let base = if text::ends_with(name, suffix) {
        name.take(name.len() - suffix.len())
    } else {
        name
    };
    if base.len() <= name_limit() {
        base
    } else {
        base.take(name_limit())
    }
}

/// The full name of an entry: the base name with the target format's
/// extension appended.
pub open spec fn entry_name_spec(name: Seq<char>, source: Format, target: Format) -> Seq<char> {
    stripped_name(name, source) + seq!['.'] + target.ext()
}

/// Law: an entry's base name never exceeds the 64-character limit,
/// whatever the original name's length; the cut counts characters.
pub proof fn lemma_entry_base_bounded(name: Seq<char>, source: Format)
    ensures
        stripped_name(name, source).len() <= name_limit(),
{
}

/// One archive entry, mathematically: its path, permission mode and
/// contents.
pub ghost struct ArchiveEntryView {
    pub name: Seq<char>,
    pub mode: u32,
    pub data: Seq<u8>,
}

/// What an entity contributes to the archive.
pub open spec fn entry_view_of(e: ImageEntity) -> ArchiveEntryView {
    ArchiveEntryView {
        name: entry_name_spec(e.name@, e.source_format, e.target_format.unwrap()),
        mode: 0o644u32,
        data: e.encoded_result@,
    }
}

/// The entries that a sequence of entities contributes: one per selected
/// entity, in order.
pub open spec fn selected_entries(s: Seq<ImageEntity>) -> Seq<ArchiveEntryView> {
    s.filter(|e: ImageEntity| e.selected).map_values(|e: ImageEntity| entry_view_of(e))
}

/// Why an archive could not be built. A failed archive is failed whole: no
/// partial archive is ever returned.
#[derive(Clone, Copy, PartialEq, Eq, Structural, Debug)]
pub enum ArchiveError {
    /// An entry's name cannot be held by a tar header.
    Entry,
}

/// Computes an entity's archive entry name from its original file name and
/// its two formats.
pub fn entry_name(name: &str, source: Format, target: Format) -> (r: String)
    ensures
        r@ == entry_name_spec(name@, source, target),
{
    let src_ext = source.ext_str();
    let mut suffix = String::from_str(".");
    suffix.append(src_ext);
    proof {
        reveal_strlit(".");
        assert(suffix@ =~= seq!['.'].add(source.ext()));
    }
    let name_chars = name.unicode_len();
    let suffix_chars = suffix.as_str().unicode_len();
    let base = if text::str_ends_with(name, suffix.as_str()) {
        name.substring_char(0, name_chars - suffix_chars)
    } else {
        name
    };
    let base_chars = base.unicode_len();
    let cut = if base_chars <= 64 {
        base
    } else {
        base.substring_char(0, 64)
    };
    let mut out = String::from_str(cut);
    out.append(".");
    out.append(target.ext_str());
    proof {
        reveal_strlit(".");
        assert(out@ =~= entry_name_spec(name@, source, target));
    }
    out
}

/// The tar serialization of a sequence of entries: each entry's header
/// (its path, size, mode and checksum) and contents, then the format's
/// terminating blocks. Depends on the entries alone.
pub uninterp spec fn tar_bytes(entries: Seq<ArchiveEntryView>) -> Seq<u8>;

/// A tar archive being written into an in-memory buffer. Opaque to the
/// verifier; what it holds is tracked through [`tar_contents`].
#[verifier::external_body]
pub struct TarSink {
    inner: tar::Builder<std::io::Cursor<Vec<u8>>>,
}

/// What a tar sink holds so far.
pub uninterp spec fn tar_contents(b: TarSink) -> Seq<ArchiveEntryView>;

/// Whether a tar header can hold a path: what tar::Header::set_path
/// accepts, a function of the name alone (a gnu header holds at most 100
/// bytes).
pub uninterp spec fn tar_path_fits(name: Seq<char>) -> bool;

/// Whether every selected entity's entry name fits a tar header.
pub open spec fn entries_fit(s: Seq<ImageEntity>) -> bool {
    forall|i: int|
        0 <= i < selected_entries(s).len() ==> tar_path_fits(
            #[trigger] selected_entries(s)[i].name,
        )
}

/// Relies on tar::Builder::new over an in-memory cursor: a new archive
/// holds no entries.
#[verifier::external_body]
fn tar_new() -> (b: TarSink)
    ensures
        tar_contents(b) == Seq::<ArchiveEntryView>::empty(),
{
    TarSink { inner: tar::Builder::new(std::io::Cursor::new(Vec::new())) }
}

/// Relies on tar::Header (gnu) with set_path, set_size, set_mode and
/// set_cksum, and on tar::Builder::append: whether the path fits the
/// header depends on the name alone; when it does, one entry with the
/// given path, mode and contents, its size and checksum filled in, is
/// appended after the ones already there — writes to the in-memory cursor
/// cannot fail.
#[verifier::external_body]
fn tar_append(b: &mut TarSink, name: &str, mode: u32, data: &Vec<u8>) -> (r: Result<(), ()>)
    ensures
        r is Ok <==> tar_path_fits(name@),
        r is Ok ==> tar_contents(*final(b)) == tar_contents(*old(b)).push(
            (ArchiveEntryView { name: name@, mode, data: data@ }),
        ),
{
    let mut header = tar::Header::new_gnu();
    if header.set_path(name).is_err() {
        return Err(());
    }
    header.set_size(data.len() as u64);
    header.set_mode(mode);
    header.set_cksum();
    match b.inner.append(&header, data.as_slice()) {
        Ok(()) => Ok(()),
        Err(_) => Err(()),
    }
}

/// Relies on tar::Builder::into_inner: finishing writes the terminating
/// blocks, which over an in-memory cursor cannot fail; the archive bytes
/// depend on the appended entries alone.
#[verifier::external_body]
fn tar_finish(b: TarSink) -> (r: Result<Vec<u8>, ()>)
    ensures
        r is Ok,
        r matches Ok(bytes) ==> bytes@ == tar_bytes(tar_contents(b)),
{
    match b.inner.into_inner() {
        Ok(cursor) => Ok(cursor.into_inner()),
        Err(_) => Err(()),
    }
}

/// Bundles the selected entities into one tar archive.
///
/// Every selected entity must carry a target format (entities read from a
/// store's `output` collection always do). Returns `Ok(None)`, a no-op,
/// exactly when no entity is selected; builds the archive of all selected
/// entities' entries whenever every entry name fits a tar header, and
/// fails whole — never a partial archive — exactly when one does not.
pub fn build_archive(entities: &Vec<ImageEntity>) -> (r: Result<Option<Vec<u8>>, ArchiveError>)
    requires
        forall|i: int|
            0 <= i < entities@.len() ==> (#[trigger] entities@[i]).selected
                ==> entities@[i].target_format is Some,
    ensures
        r == Ok::<Option<Vec<u8>>, ArchiveError>(None::<Vec<u8>>) <==> selected_entries(
            entities@,
        ).len() == 0,
        r matches Ok(Some(bytes)) ==> bytes@ == tar_bytes(selected_entries(entities@)),
        r is Err <==> !entries_fit(entities@),
{
    let ghost all = entities@;
    let mut any_selected = false;
    let mut builder = tar_new();
    let mut i: usize = 0;
    proof {
        reveal(Seq::filter);
        assert(all.take(0) =~= Seq::<ImageEntity>::empty());
        assert(selected_entries(all.take(0)) =~= Seq::<ArchiveEntryView>::empty());
    }
    while i < entities.len()
        invariant
            i <= all.len(),
            entities@ == all,
            forall|j: int|
                0 <= j < all.len() ==> (#[trigger] all[j]).selected ==> all[j].target_format
                    is Some,
            tar_contents(builder) == selected_entries(all.take(i as int)),
            any_selected == (selected_entries(all.take(i as int)).len() > 0),
            entries_fit(all.take(i as int)),
        decreases all.len() - i,
    {
        let e = &entities[i];
        proof {
            all.lemma_take_succ_push(i as int);
            all.take(i as int).lemma_filter_push(all[i as int], |en: ImageEntity| en.selected);
            all.take(i as int).filter(|en: ImageEntity| en.selected).lemma_push_map_commute(
                |en: ImageEntity| entry_view_of(en),
                all[i as int],
            );
        }
        if e.selected {
            let name = entry_name(e.name.as_str(), e.source_format, e.target_format.unwrap());
            if tar_append(&mut builder, name.as_str(), 0o644, &e.encoded_result).is_err() {
                proof {
                    all.lemma_filter_contains(|en: ImageEntity| en.selected, i as int);
                    let sel = all.filter(|en: ImageEntity| en.selected);
                    let k = choose|k: int| 0 <= k < sel.len() && sel[k] == all[i as int];
                    assert(selected_entries(all)[k] == entry_view_of(all[i as int]));
                    assert(!tar_path_fits(selected_entries(all)[k].name));
                }
                return Err(ArchiveError::Entry);
            }
            any_selected = true;
            proof {
                assert(tar_contents(builder) =~= selected_entries(all.take(i as int + 1)));
                assert forall|j: int|
                    0 <= j < selected_entries(all.take(i as int + 1)).len() implies tar_path_fits(
                    #[trigger] selected_entries(all.take(i as int + 1))[j].name,
                ) by {
                    if j < selected_entries(all.take(i as int)).len() {
                        assert(selected_entries(all.take(i as int + 1))[j] == selected_entries(
                            all.take(i as int),
                        )[j]);
                    } else {
                        assert(selected_entries(all.take(i as int + 1))[j] == entry_view_of(
                            all[i as int],
                        ));
                    }
                }
            }
        }
        i = i + 1;
    }
    proof {
        all.lemma_take_len();
    }
    if !any_selected {
        return Ok(None);
    }
    let bytes = tar_finish(builder).unwrap();
    Ok(Some(bytes))
}

impl ImageStore {
    /// Bundles the selected entities of `output` into one tar archive;
    /// `Ok(None)`, not an error, when none is selected; an error exactly
    /// when some selected entry's name cannot be held by a tar header.
    pub fn build_selected_archive(&self) -> (r: Result<Option<Vec<u8>>, ArchiveError>)
        requires
            self.wf(),
        ensures
            r == Ok::<Option<Vec<u8>>, ArchiveError>(None::<Vec<u8>>) <==> selected_entries(
                self.output_seq(),
            ).len() == 0,
            r matches Ok(Some(bytes)) ==> bytes@ == tar_bytes(selected_entries(self.output_seq())),
            r is Err <==> !entries_fit(self.output_seq()),
    {
        build_archive(self.output())
    }
}

} // verus!
