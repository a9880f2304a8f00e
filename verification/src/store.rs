//! The image store: the three staged collections and the entity lifecycle.
//!
//! Entities are created in `uploaded`, move to `queued` when the user queues
//! the selected ones with a target format, and are drained one at a time
//! through the conversion engine into `output`. A conversion that fails
//! lands in an explicit failure record instead of vanishing. Every entity
//! carries an identifier that is unique across all collections for the
//! store's lifetime and is never reused.

use vstd::prelude::*;
use vstd::seq_lib::*;

use crate::engine::ConversionError;
use crate::format::Format;
use crate::raster::{DecodeFailure, Raster, sniffed_format, decoded_raster};

verus! {

/// One uploaded image and its conversion state, tracked across the three
/// stages under one identifier.
pub struct ImageEntity {
    /// Unique identifier, assigned at creation, never reused.
    pub id: u64,
    /// Original file name, used for display and archive naming.
    pub name: String,
    /// Detected container format of the original bytes.
    pub source_format: Format,
    /// Chosen output format; `None` exactly while the entity has never left
    /// `uploaded`.
    pub target_format: Option<Format>,
    /// Decoded pixel buffer; immutable after decode.
    pub raster: Raster,
    /// Small rendered preview, computed once at creation.
    pub preview: String,
    /// Bytes produced by the conversion engine; empty until conversion
    /// completes.
    pub encoded_result: Vec<u8>,
    /// User-controlled filter for batch operations; reset whenever the
    /// entity leaves a collection.
    pub selected: bool,
    /// When conversion finished, if it has.
    pub completed_at: Option<u64>,
}

/// A conversion that failed, kept visible rather than dropped.
pub struct FailedConversion {
    pub entity: ImageEntity,
    pub error: ConversionError,
}

/// One of the three observable collections.
#[derive(Clone, Copy, PartialEq, Eq, Structural, Debug)]
pub enum Stage {
    Uploaded,
    Queued,
    Output,
}

/// What one processor step did.
#[derive(Clone, Copy, PartialEq, Eq, Structural, Debug)]
pub enum DrainOutcome {
    /// The queue was empty; nothing changed.
    Empty,
    /// The oldest queued entity was converted and appended to `output`.
    Converted,
    /// The oldest queued entity could not be converted and was appended to
    /// the failure records.
    Failed,
}

/// When ingesting a byte buffer succeeds: known magic bytes, a decodable
/// image, and a renderable preview.
pub open spec fn ingest_succeeds(bytes: Seq<u8>) -> bool {
    &&& sniffed_format(bytes) is Some
    &&& decoded_raster(bytes) matches Some(v) && crate::thumb::thumbnail_png(v) is Some
}

/// Why a file produced no entity; the batch goes on either way.
#[derive(Clone, Copy, PartialEq, Eq, Structural, Debug)]
pub enum IngestError {
    /// The content matched no known container format.
    UnrecognizedFormat,
    /// The content was recognized as some format but is structurally
    /// invalid.
    InvalidData,
    /// The preview could not be rendered.
    Preview,
}

/// The identifiers of a sequence of entities, in order.
pub open spec fn entity_ids(s: Seq<ImageEntity>) -> Seq<u64> {
    s.map_values(|e: ImageEntity| e.id)
}

/// The selected entities of a sequence, in order.
pub open spec fn selected_of(s: Seq<ImageEntity>) -> Seq<ImageEntity> {
    s.filter(|e: ImageEntity| e.selected)
}

/// The unselected entities of a sequence, in order.
pub open spec fn unselected_of(s: Seq<ImageEntity>) -> Seq<ImageEntity> {
    s.filter(|e: ImageEntity| !e.selected)
}

/// An entity as it looks after being stamped for queueing: the target
/// format set, the selection flag reset, everything else untouched.
pub open spec fn stamped(e: ImageEntity, target: Format) -> ImageEntity {
    ImageEntity { target_format: Some(target), selected: false, ..e }
}

/// A sequence of entities, each stamped for queueing.
pub open spec fn stamped_all(s: Seq<ImageEntity>, target: Format) -> Seq<ImageEntity> {
    s.map_values(|e: ImageEntity| stamped(e, target))
}

/// An entity with only its selection flag replaced.
pub open spec fn with_selected(e: ImageEntity, state: bool) -> ImageEntity {
    ImageEntity { selected: state, ..e }
}

/// A sequence of entities, each with its selection flag replaced.
pub open spec fn all_selected(s: Seq<ImageEntity>, state: bool) -> Seq<ImageEntity> {
    s.map_values(|e: ImageEntity| with_selected(e, state))
}

/// What holds of every entity in `uploaded`: no target yet, no result yet.
pub open spec fn uploaded_ok(e: ImageEntity) -> bool {
    &&& e.target_format is None
    &&& e.encoded_result@.len() == 0
    &&& e.completed_at is None
}

/// What holds of every entity in `queued`, and of every failure record's
/// entity: a target is stamped, no result yet.
pub open spec fn queued_ok(e: ImageEntity) -> bool {
    &&& e.target_format is Some
    &&& e.encoded_result@.len() == 0
    &&& e.completed_at is None
}

/// What holds of every entity in `output`: a target, a non-empty result,
/// and a completion time.
pub open spec fn output_ok(e: ImageEntity) -> bool {
    &&& e.target_format is Some
    &&& e.encoded_result@.len() > 0
    &&& e.completed_at is Some
}

/// Owner of the three staged collections and the failure records.
pub struct ImageStore {
    uploaded: Vec<ImageEntity>,
    queued: Vec<ImageEntity>,
    output: Vec<ImageEntity>,
    failed: Vec<FailedConversion>,
    next_id: u64,
}

impl ImageStore {
    pub closed spec fn uploaded_seq(&self) -> Seq<ImageEntity> {
        self.uploaded@
    }

    pub closed spec fn queued_seq(&self) -> Seq<ImageEntity> {
        self.queued@
    }

    pub closed spec fn output_seq(&self) -> Seq<ImageEntity> {
        self.output@
    }

    pub closed spec fn failed_seq(&self) -> Seq<FailedConversion> {
        self.failed@
    }

    /// All identifiers ever handed out lie below this bound.
    pub closed spec fn id_bound(&self) -> u64 {
        self.next_id
    }

    /// The entities of the failure records, in order.
    pub open spec fn failed_entities(&self) -> Seq<ImageEntity> {
        self.failed_seq().map_values(|f: FailedConversion| f.entity)
    }

    /// The chosen observable collection.
    pub open spec fn stage_seq(&self, stage: Stage) -> Seq<ImageEntity> {
        match stage {
            Stage::Uploaded => self.uploaded_seq(),
            Stage::Queued => self.queued_seq(),
            Stage::Output => self.output_seq(),
        }
    }

    /// How often an identifier occurs across all collections.
    pub open spec fn id_count(&self, x: u64) -> nat {
        entity_ids(self.uploaded_seq()).to_multiset().count(x) + entity_ids(
            self.queued_seq(),
        ).to_multiset().count(x) + entity_ids(self.output_seq()).to_multiset().count(x)
            + entity_ids(self.failed_entities()).to_multiset().count(x)
    }

    /// Every identifier occurs at most once across the union of the
    /// collections.
    pub open spec fn ids_distinct(&self) -> bool {
        forall|x: u64| self.id_count(x) <= 1
    }

    /// Every identifier in use lies below the bound the next entity will be
    /// assigned from.
    pub open spec fn ids_bounded(&self) -> bool {
        forall|x: u64| self.id_count(x) > 0 ==> x < self.id_bound()
    }

    /// All identifiers across the union of the collections, in order.
    pub open spec fn all_ids(&self) -> Seq<u64> {
        entity_ids(self.uploaded_seq()) + entity_ids(self.queued_seq()) + entity_ids(
            self.output_seq(),
        ) + entity_ids(self.failed_entities())
    }

    /// The store's invariant: identifier uniqueness across the union of the
    /// collections, and each collection's phase conditions.
    pub open spec fn wf(&self) -> bool {
        &&& self.ids_distinct()
        &&& self.ids_bounded()
        &&& (forall|i: int|
            0 <= i < self.uploaded_seq().len() ==> uploaded_ok(#[trigger] self.uploaded_seq()[i]))
        &&& (forall|i: int|
            0 <= i < self.queued_seq().len() ==> queued_ok(#[trigger] self.queued_seq()[i]))
        &&& (forall|i: int|
            0 <= i < self.output_seq().len() ==> output_ok(#[trigger] self.output_seq()[i]))
        &&& (forall|i: int|
            0 <= i < self.failed_seq().len() ==> queued_ok(#[trigger] self.failed_seq()[i].entity)
                && !self.failed_seq()[i].entity.selected)
    }

    /// An empty store.
    pub fn new() -> (r: ImageStore)
        ensures
            r.wf(),
            r.uploaded_seq() == Seq::<ImageEntity>::empty(),
            r.queued_seq() == Seq::<ImageEntity>::empty(),
            r.output_seq() == Seq::<ImageEntity>::empty(),
            r.failed_seq() == Seq::<FailedConversion>::empty(),
            r.id_bound() == 0,
    {
        let r = ImageStore {
            uploaded: Vec::new(),
            queued: Vec::new(),
            output: Vec::new(),
            failed: Vec::new(),
            next_id: 0,
        };
        proof {
            assert(entity_ids(r.uploaded@) =~= Seq::<u64>::empty());
            assert(entity_ids(r.queued@) =~= Seq::<u64>::empty());
            assert(entity_ids(r.output@) =~= Seq::<u64>::empty());
            assert(r.failed@.map_values(|f: FailedConversion| f.entity) =~= Seq::<
                ImageEntity,
            >::empty());
            assert(entity_ids(Seq::<ImageEntity>::empty()) =~= Seq::<u64>::empty());
            Seq::<u64>::empty().to_multiset_ensures();
            assert(forall|x: u64| r.id_count(x) == 0);
        }
        r
    }

    /// A read snapshot of `uploaded`.
    pub fn uploaded(&self) -> (r: &Vec<ImageEntity>)
        ensures
            r@ == self.uploaded_seq(),
    {
        &self.uploaded
    }

    /// A read snapshot of `queued`.
    pub fn queued(&self) -> (r: &Vec<ImageEntity>)
        ensures
            r@ == self.queued_seq(),
    {
        &self.queued
    }

    /// A read snapshot of `output`.
    pub fn output(&self) -> (r: &Vec<ImageEntity>)
        ensures
            r@ == self.output_seq(),
    {
        &self.output
    }

    /// A read snapshot of the failure records.
    pub fn failed(&self) -> (r: &Vec<FailedConversion>)
        ensures
            r@ == self.failed_seq(),
    {
        &self.failed
    }

    /// The identifier the next created entity will receive.
    pub fn next_id(&self) -> (r: u64)
        ensures
            r == self.id_bound(),
    {
        self.next_id
    }

    /// Creates an entity for a decoded image and appends it to `uploaded`.
    ///
    /// The entity receives the next free identifier, starts unselected,
    /// with no target format, no encoded result and no completion time.
    /// Returns the identifier, which differs from that of every entity
    /// already in the store.
    pub fn add_image(&mut self, name: String, source_format: Format, raster: Raster, preview: String) -> (id: u64)
        requires
            old(self).wf(),
            old(self).id_bound() < u64::MAX,
        ensures
            final(self).wf(),
            id == old(self).id_bound(),
            final(self).id_bound() == old(self).id_bound() + 1,
            final(self).queued_seq() == old(self).queued_seq(),
            final(self).output_seq() == old(self).output_seq(),
            final(self).failed_seq() == old(self).failed_seq(),
            final(self).uploaded_seq().len() == old(self).uploaded_seq().len() + 1,
            final(self).uploaded_seq().drop_last() == old(self).uploaded_seq(),
            ({
                let e = final(self).uploaded_seq().last();
                &&& e.id == id
                &&& e.name == name
                &&& e.source_format == source_format
                &&& e.target_format is None
                &&& e.raster == raster
                &&& e.preview == preview
                &&& e.encoded_result@.len() == 0
                &&& !e.selected
                &&& e.completed_at is None
            }),
            old(self).id_count(id) == 0,
    {
        let id = self.next_id;
        let entity = ImageEntity {
            id,
            name,
            source_format,
            target_format: None,
            raster,
            preview,
            encoded_result: Vec::new(),
            selected: false,
            completed_at: None,
        };
        proof {
            if old(self).id_count(id) > 0 {
                assert(id < old(self).id_bound());
            }
            entity_ids(self.uploaded@).to_multiset_ensures();
            self.uploaded@.lemma_push_map_commute(|e: ImageEntity| e.id, entity);
            assert(entity_ids(self.uploaded@.push(entity)) == entity_ids(self.uploaded@).push(
                id,
            ));
        }
        self.uploaded.push(entity);
        self.next_id = self.next_id + 1;
        proof {
            assert(self.uploaded@.drop_last() =~= old(self).uploaded@);
            assert forall|x: u64| #[trigger] self.id_count(x) <= 1 && (self.id_count(x) > 0 ==> x
                < self.id_bound()) by {
                if x == id {
                    assert(self.id_count(x) == old(self).id_count(x) + 1);
                } else {
                    assert(self.id_count(x) == old(self).id_count(x));
                    if old(self).id_count(x) > 0 {
                        assert(x < old(self).id_bound());
                    }
                }
            }
        }
        id
    }

    /// Decodes one file's bytes, renders its preview into the scratch
    /// buffer, and appends a fresh entity to `uploaded`. A file that fails
    /// leaves the store untouched; one bad file never aborts a batch.
    pub fn ingest_file(&mut self, name: String, bytes: &Vec<u8>, scratch: &mut Vec<u8>) -> (r:
        Result<u64, IngestError>)
        requires
            old(self).wf(),
            old(self).id_bound() < u64::MAX,
        ensures
            final(self).wf(),
            final(self).queued_seq() == old(self).queued_seq(),
            final(self).output_seq() == old(self).output_seq(),
            final(self).failed_seq() == old(self).failed_seq(),
            r is Ok <==> ingest_succeeds(bytes@),
            r matches Ok(id) ==> {
                &&& id == old(self).id_bound()
                &&& final(self).id_bound() == old(self).id_bound() + 1
                &&& final(self).uploaded_seq().len() == old(self).uploaded_seq().len() + 1
                &&& final(self).uploaded_seq().drop_last() == old(self).uploaded_seq()
                &&& ({
                    let e = final(self).uploaded_seq().last();
                    &&& e.id == id
                    &&& e.name == name
                    &&& sniffed_format(bytes@) == Some(e.source_format)
                    &&& Some(e.raster@) == decoded_raster(bytes@)
                    &&& e.preview@ == crate::thumb::preview_uri(decoded_raster(bytes@).unwrap())
                    &&& e.target_format is None
                    &&& !e.selected
                })
            },
            r is Err ==> *final(self) == *old(self),
            r == Err::<u64, IngestError>(IngestError::UnrecognizedFormat) <==> sniffed_format(
                bytes@,
            ) is None,
            r == Err::<u64, IngestError>(IngestError::InvalidData) <==> sniffed_format(bytes@)
                is Some && decoded_raster(bytes@) is None,
            r == Err::<u64, IngestError>(IngestError::Preview) <==> (sniffed_format(bytes@)
                is Some && (decoded_raster(bytes@) matches Some(v)
                && crate::thumb::thumbnail_png(v) is None)),
    {
        let decoded = crate::raster::decode(bytes);
        let (raster, fmt) = match decoded {
            Ok(p) => p,
            Err(DecodeFailure::UnrecognizedFormat) => {
                return Err(IngestError::UnrecognizedFormat);
            },
            Err(DecodeFailure::InvalidData) => {
                return Err(IngestError::InvalidData);
            },
        };
        let preview = match crate::thumb::generate_sample_image(&raster, scratch) {
            Some(p) => p,
            None => {
                return Err(IngestError::Preview);
            },
        };
        let id = self.add_image(name, fmt, raster, preview);
        Ok(id)
    }

    /// Sets the selection flag of every entity currently in the given
    /// collection to `state`; nothing else about any entity changes.
    pub fn toggle_select_all(&mut self, stage: Stage, state: bool)
        requires
            old(self).wf(),
        ensures
            final(self).wf(),
            final(self).id_bound() == old(self).id_bound(),
            final(self).stage_seq(stage) == all_selected(old(self).stage_seq(stage), state),
            stage != Stage::Uploaded ==> final(self).uploaded_seq() == old(self).uploaded_seq(),
            stage != Stage::Queued ==> final(self).queued_seq() == old(self).queued_seq(),
            stage != Stage::Output ==> final(self).output_seq() == old(self).output_seq(),
            final(self).failed_seq() == old(self).failed_seq(),
    {
        match stage {
            Stage::Uploaded => set_all(&mut self.uploaded, state),
            Stage::Queued => set_all(&mut self.queued, state),
            Stage::Output => set_all(&mut self.output, state),
        }
        proof {
            let pre = old(self).stage_seq(stage);
            let post = self.stage_seq(stage);
            assert(entity_ids(post) =~= entity_ids(pre));
            assert forall|x: u64| #[trigger] self.id_count(x) == old(self).id_count(x) by {}
            assert forall|i: int|
                0 <= i < self.uploaded_seq().len() implies uploaded_ok(
                #[trigger] self.uploaded_seq()[i],
            ) by {
                if stage == Stage::Uploaded {
                    assert(self.uploaded_seq()[i] == with_selected(
                        old(self).uploaded_seq()[i],
                        state,
                    ));
                }
            }
            assert forall|i: int|
                0 <= i < self.queued_seq().len() implies queued_ok(
                #[trigger] self.queued_seq()[i],
            ) by {
                if stage == Stage::Queued {
                    assert(self.queued_seq()[i] == with_selected(old(self).queued_seq()[i], state));
                }
            }
            assert forall|i: int|
                0 <= i < self.output_seq().len() implies output_ok(
                #[trigger] self.output_seq()[i],
            ) by {
                if stage == Stage::Output {
                    assert(self.output_seq()[i] == with_selected(old(self).output_seq()[i], state));
                }
            }
        }
    }

    /// Sets the selection flag of the one entity at `index` in the given
    /// collection — the per-entity toggle of the observability boundary.
    pub fn set_selected(&mut self, stage: Stage, index: usize, state: bool)
        requires
            old(self).wf(),
            index < old(self).stage_seq(stage).len(),
        ensures
            final(self).wf(),
            final(self).id_bound() == old(self).id_bound(),
            final(self).stage_seq(stage) == old(self).stage_seq(stage).update(
                index as int,
                with_selected(old(self).stage_seq(stage)[index as int], state),
            ),
            stage != Stage::Uploaded ==> final(self).uploaded_seq() == old(self).uploaded_seq(),
            stage != Stage::Queued ==> final(self).queued_seq() == old(self).queued_seq(),
            stage != Stage::Output ==> final(self).output_seq() == old(self).output_seq(),
            final(self).failed_seq() == old(self).failed_seq(),
    {
        match stage {
            Stage::Uploaded => set_one(&mut self.uploaded, index, state),
            Stage::Queued => set_one(&mut self.queued, index, state),
            Stage::Output => set_one(&mut self.output, index, state),
        }
        proof {
            let pre = old(self).stage_seq(stage);
            let post = self.stage_seq(stage);
            assert(entity_ids(post) =~= entity_ids(pre));
            assert forall|x: u64| #[trigger] self.id_count(x) == old(self).id_count(x) by {}
            assert forall|i: int|
                0 <= i < self.uploaded_seq().len() implies uploaded_ok(
                #[trigger] self.uploaded_seq()[i],
            ) by {
                assert(uploaded_ok(old(self).uploaded_seq()[i]));
            }
            assert forall|i: int|
                0 <= i < self.queued_seq().len() implies queued_ok(
                #[trigger] self.queued_seq()[i],
            ) by {
                assert(queued_ok(old(self).queued_seq()[i]));
            }
            assert forall|i: int|
                0 <= i < self.output_seq().len() implies output_ok(
                #[trigger] self.output_seq()[i],
            ) by {
                assert(output_ok(old(self).output_seq()[i]));
            }
            assert forall|i: int|
                0 <= i < self.failed_seq().len() implies queued_ok(
                #[trigger] self.failed_seq()[i].entity,
            ) && !self.failed_seq()[i].entity.selected by {
                assert(queued_ok(old(self).failed_seq()[i].entity));
                assert(!old(self).failed_seq()[i].entity.selected);
            }
        }
    }

    /// Atomically moves every selected entity of `uploaded` into `queued`,
    /// stamping the chosen target format on each and resetting its
    /// selection flag; unselected entities stay in `uploaded` untouched, in
    /// their order; the moved entities join the end of `queued` in their
    /// order.
    pub fn queue_selected(&mut self, target: Format)
        requires
            old(self).wf(),
        ensures
            final(self).wf(),
            final(self).id_bound() == old(self).id_bound(),
            final(self).output_seq() == old(self).output_seq(),
            final(self).failed_seq() == old(self).failed_seq(),
            final(self).uploaded_seq() == unselected_of(old(self).uploaded_seq()),
            final(self).queued_seq() == old(self).queued_seq() + stamped_all(
                selected_of(old(self).uploaded_seq()),
                target,
            ),
    {
        let ghost orig = self.uploaded@;
        let ghost origq = self.queued@;
        let ghost mut i: int = 0;
        let mut kept: Vec<ImageEntity> = Vec::new();
        proof {
            reveal(Seq::filter);
            assert(orig.take(0) =~= Seq::<ImageEntity>::empty());
            assert(kept@ =~= unselected_of(orig.take(0)));
            assert(stamped_all(selected_of(orig.take(0)), target) =~= Seq::<
                ImageEntity,
            >::empty());
            assert(self.queued@ =~= origq + stamped_all(selected_of(orig.take(0)), target));
        }
        while self.uploaded.len() > 0
            invariant
                0 <= i <= orig.len(),
                self.uploaded@ == orig.skip(i),
                kept@ == unselected_of(orig.take(i)),
                self.queued@ == origq + stamped_all(selected_of(orig.take(i)), target),
                self.output@ == old(self).output@,
                self.failed@ == old(self).failed@,
                self.next_id == old(self).next_id,
            decreases self.uploaded@.len(),
        {
            let mut e = self.uploaded.remove(0);
            proof {
                assert(e == orig[i]);
                assert(self.uploaded@ =~= orig.skip(i + 1));
                orig.lemma_take_succ_push(i);
                orig.take(i).lemma_filter_push(orig[i], |en: ImageEntity| en.selected);
                orig.take(i).lemma_filter_push(orig[i], |en: ImageEntity| !en.selected);
            }
            if e.selected {
                e.target_format = Some(target);
                e.selected = false;
                proof {
                    assert(e == stamped(orig[i], target));
                    selected_of(orig.take(i)).lemma_push_map_commute(
                        |en: ImageEntity| stamped(en, target),
                        orig[i],
                    );
                    Seq::push_distributes_over_add(
                        origq,
                        stamped_all(selected_of(orig.take(i)), target),
                        stamped(orig[i], target),
                    );
                }
                self.queued.push(e);
            } else {
                kept.push(e);
            }
            proof {
                i = i + 1;
            }
        }
        proof {
            assert(i == orig.len());
            orig.lemma_take_len();
        }
        self.uploaded = kept;
        proof {
            let sel = selected_of(orig);
            let unsel = unselected_of(orig);
            let stamped_sel = stamped_all(sel, target);
            assert(entity_ids(stamped_sel) =~= entity_ids(sel));
            assert(entity_ids(origq + stamped_sel) =~= entity_ids(origq) + entity_ids(
                stamped_sel,
            ));
            assert forall|x: u64| #[trigger] self.id_count(x) == old(self).id_count(x) by {
                broadcast use vstd::multiset::group_multiset_axioms;

                lemma_ids_filter_partition(orig, x);
                lemma_multiset_commutative(entity_ids(origq), entity_ids(stamped_sel));
            }
            broadcast use Seq::lemma_filter_contains_rev;

            assert forall|j: int|
                0 <= j < self.uploaded_seq().len() implies uploaded_ok(
                #[trigger] self.uploaded_seq()[j],
            ) by {
                let e = unsel[j];
                assert(unsel.contains(e));
                assert(orig.contains(e));
                let k = choose|k: int| 0 <= k < orig.len() && orig[k] == e;
                assert(uploaded_ok(old(self).uploaded_seq()[k]));
            }
            assert forall|j: int|
                0 <= j < self.queued_seq().len() implies queued_ok(
                #[trigger] self.queued_seq()[j],
            ) by {
                if j < origq.len() {
                    assert(queued_ok(old(self).queued_seq()[j]));
                } else {
                    let e = sel[j - origq.len()];
                    assert(self.queued_seq()[j] == stamped(e, target));
                    assert(sel.contains(e));
                    assert(orig.contains(e));
                    let k = choose|k: int| 0 <= k < orig.len() && orig[k] == e;
                    assert(uploaded_ok(old(self).uploaded_seq()[k]));
                }
            }
            assert(self.ids_distinct());
            assert(self.ids_bounded());
            assert forall|j: int|
                0 <= j < self.output_seq().len() implies output_ok(
                #[trigger] self.output_seq()[j],
            ) by {
                assert(self.output_seq() == old(self).output_seq());
                assert(output_ok(old(self).output_seq()[j]));
            }
            assert forall|j: int|
                0 <= j < self.failed_seq().len() implies queued_ok(
                #[trigger] self.failed_seq()[j].entity,
            ) && !self.failed_seq()[j].entity.selected by {
                assert(self.failed_seq() == old(self).failed_seq());
                assert(queued_ok(old(self).failed_seq()[j].entity));
                assert(!old(self).failed_seq()[j].entity.selected);
            }
        }
    }

    /// Removes the oldest queued entity, converts it with its stamped
    /// target format, and appends the completed entity to `output`; a
    /// conversion failure appends a failure record instead, so the entity
    /// never vanishes. Does nothing on an empty queue. `now` is the
    /// completion timestamp recorded on success.
    pub fn drain_one_to_output(&mut self, now: u64) -> (outcome: DrainOutcome)
        requires
            old(self).wf(),
        ensures
            final(self).wf(),
            drain_step(*old(self), *final(self), outcome, now),
    {
        if self.queued.len() == 0 {
            return DrainOutcome::Empty;
        }
        let ghost origq = self.queued@;
        let mut e = self.queued.remove(0);
        proof {
            broadcast use vstd::seq_lib::group_to_multiset_ensures;
            broadcast use vstd::multiset::group_multiset_axioms;

            assert(e == origq[0]);
            assert(queued_ok(old(self).queued_seq()[0]));
            assert(self.queued@ =~= origq.drop_first());
            assert(entity_ids(origq.drop_first()) =~= entity_ids(origq).remove(0));
            entity_ids(origq).to_multiset_ensures();
            assert(entity_ids(origq)[0] == e.id);
            assert(entity_ids(origq).contains(e.id));
            assert(entity_ids(origq).to_multiset().count(e.id) > 0);
            assert(entity_ids(self.queued@).to_multiset() =~= entity_ids(
                origq,
            ).to_multiset().remove(e.id));
            assert forall|j: int|
                0 <= j < self.queued_seq().len() implies queued_ok(
                #[trigger] self.queued_seq()[j],
            ) by {
                assert(self.queued_seq()[j] == old(self).queued_seq()[j + 1]);
                assert(queued_ok(old(self).queued_seq()[j + 1]));
            }
        }
        e.selected = false;
        let ghost moved: u64 = e.id;
        let target = e.target_format.unwrap();
        let converted = crate::engine::convert(&e.raster, target);
        match converted {
            Ok(bytes) => {
                e.encoded_result = bytes;
                e.completed_at = Some(now);
                proof {
                    broadcast use vstd::seq_lib::group_to_multiset_ensures;

                    self.output@.lemma_push_map_commute(|en: ImageEntity| en.id, e);
                    entity_ids(self.output@).to_multiset_ensures();
                }
                self.output.push(e);
                proof {
                    assert(self.output@.drop_last() =~= old(self).output@);
                    assert(entity_ids(self.output@).to_multiset() =~= entity_ids(
                        old(self).output@,
                    ).to_multiset().insert(moved));
                    lemma_drain_ids(*old(self), *self, moved);
                    assert forall|j: int|
                        0 <= j < self.uploaded_seq().len() implies uploaded_ok(
                        #[trigger] self.uploaded_seq()[j],
                    ) by {
                        assert(uploaded_ok(old(self).uploaded_seq()[j]));
                    }
                    assert forall|j: int|
                        0 <= j < self.output_seq().len() implies output_ok(
                        #[trigger] self.output_seq()[j],
                    ) by {
                        if j < old(self).output_seq().len() {
                            assert(self.output_seq()[j] == old(self).output_seq()[j]);
                            assert(output_ok(old(self).output_seq()[j]));
                        }
                    }
                    assert forall|j: int|
                        0 <= j < self.failed_seq().len() implies queued_ok(
                        #[trigger] self.failed_seq()[j].entity,
                    ) && !self.failed_seq()[j].entity.selected by {
                        assert(queued_ok(old(self).failed_seq()[j].entity));
                        assert(!old(self).failed_seq()[j].entity.selected);
                    }
                }
                DrainOutcome::Converted
            },
            Err(err) => {
                let record = FailedConversion { entity: e, error: err };
                proof {
                    self.failed_push_ghost(*old(self), record);
                }
                self.failed.push(record);
                proof {
                    assert(self.failed@.drop_last() =~= old(self).failed@);
                    self.failed_push_wf(*old(self), record, moved);
                }
                DrainOutcome::Failed
            },
        }
    }

    /// Facts needed just before a failure record is appended.
    proof fn failed_push_ghost(&self, pre: ImageStore, record: FailedConversion)
        requires
            self.failed_seq() == pre.failed_seq(),
        ensures
            self.failed_seq().push(record).map_values(|f: FailedConversion| f.entity)
                =~= pre.failed_entities().push(record.entity),
            entity_ids(pre.failed_entities().push(record.entity)) =~= entity_ids(
                pre.failed_entities(),
            ).push(record.entity.id),
            entity_ids(pre.failed_entities()).push(record.entity.id).to_multiset()
                =~= entity_ids(pre.failed_entities()).to_multiset().insert(record.entity.id),
    {
        broadcast use vstd::seq_lib::group_to_multiset_ensures;

        self.failed@.lemma_push_map_commute(|f: FailedConversion| f.entity, record);
        pre.failed_entities().lemma_push_map_commute(|en: ImageEntity| en.id, record.entity);
        entity_ids(pre.failed_entities()).to_multiset_ensures();
    }

    /// The invariant after a failure record was appended, given the drained
    /// identifier left `queued` and the record carries it.
    proof fn failed_push_wf(&self, pre: ImageStore, record: FailedConversion, moved: u64)
        requires
            pre.wf(),
            record.entity.id == moved,
            queued_ok(record.entity),
            !record.entity.selected,
            self.id_bound() == pre.id_bound(),
            self.uploaded_seq() == pre.uploaded_seq(),
            self.output_seq() == pre.output_seq(),
            self.failed_seq() == pre.failed_seq().push(record),
            entity_ids(self.queued_seq()).to_multiset() == entity_ids(
                pre.queued_seq(),
            ).to_multiset().remove(moved),
            entity_ids(pre.queued_seq()).to_multiset().count(moved) > 0,
            entity_ids(self.failed_entities()).to_multiset() == entity_ids(
                pre.failed_entities(),
            ).to_multiset().insert(moved),
            forall|j: int|
                0 <= j < self.queued_seq().len() ==> queued_ok(#[trigger] self.queued_seq()[j]),
        ensures
            self.wf(),
    {
        lemma_drain_ids(pre, *self, moved);
        assert forall|j: int|
            0 <= j < self.uploaded_seq().len() implies uploaded_ok(
            #[trigger] self.uploaded_seq()[j],
        ) by {
            assert(uploaded_ok(pre.uploaded_seq()[j]));
        }
        assert forall|j: int|
            0 <= j < self.output_seq().len() implies output_ok(
            #[trigger] self.output_seq()[j],
        ) by {
            assert(output_ok(pre.output_seq()[j]));
        }
        assert forall|j: int|
            0 <= j < self.failed_seq().len() implies queued_ok(
            #[trigger] self.failed_seq()[j].entity,
        ) && !self.failed_seq()[j].entity.selected by {
            if j < pre.failed_seq().len() {
                assert(self.failed_seq()[j] == pre.failed_seq()[j]);
                assert(queued_ok(pre.failed_seq()[j].entity));
                assert(!pre.failed_seq()[j].entity.selected);
            } else {
                assert(self.failed_seq()[j] == record);
            }
        }
    }
}

/// Uniqueness and the identifier bound survive one drain step: the drained
/// identifier leaves `queued` and joins exactly one of `output` or the
/// failure records.
proof fn lemma_drain_ids(pre: ImageStore, post: ImageStore, moved: u64)
    requires
        pre.ids_distinct(),
        pre.ids_bounded(),
        post.id_bound() == pre.id_bound(),
        post.uploaded_seq() == pre.uploaded_seq(),
        entity_ids(post.queued_seq()).to_multiset() == entity_ids(
            pre.queued_seq(),
        ).to_multiset().remove(moved),
        entity_ids(pre.queued_seq()).to_multiset().count(moved) > 0,
        (entity_ids(post.output_seq()).to_multiset() == entity_ids(
            pre.output_seq(),
        ).to_multiset().insert(moved) && post.failed_seq() == pre.failed_seq()) || (entity_ids(
            post.failed_entities(),
        ).to_multiset() == entity_ids(pre.failed_entities()).to_multiset().insert(moved)
            && post.output_seq() == pre.output_seq()),
    ensures
        post.ids_distinct(),
        post.ids_bounded(),
{
    broadcast use vstd::multiset::group_multiset_axioms;

    assert forall|x: u64| #[trigger] post.id_count(x) == pre.id_count(x) by {}
    assert forall|x: u64| post.id_count(x) <= 1 && (post.id_count(x) > 0 ==> x
        < post.id_bound()) by {
        assert(post.id_count(x) == pre.id_count(x));
        assert(pre.id_count(x) <= 1);
        if pre.id_count(x) > 0 {
            assert(x < pre.id_bound());
        }
    }
}

/// How an output entity relates to the queued entity it came from: same
/// identity and content, the selection flag reset, the conversion result
/// and completion time filled in.
pub open spec fn completed_from(e: ImageEntity, o: ImageEntity, now: u64) -> bool {
    &&& o.id == e.id
    &&& o.name == e.name
    &&& o.source_format == e.source_format
    &&& o.target_format == e.target_format
    &&& o.raster == e.raster
    &&& o.preview == e.preview
    &&& !o.selected
    &&& o.completed_at == Some(now)
    &&& e.target_format matches Some(t) && (t != Format::OpenExr ==> o.encoded_result@
        == crate::engine::encoding_of(e.raster@, t))
    &&& o.encoded_result@.len() > 0
}

/// How a failure record relates to the queued entity it came from: the
/// entity itself, unconverted, with its selection flag reset, and an error
/// that is the unsupported-format error exactly when the stamped target has
/// no wired encoder.
pub open spec fn failed_from(e: ImageEntity, f: FailedConversion) -> bool {
    &&& f.entity.id == e.id
    &&& f.entity.name == e.name
    &&& f.entity.source_format == e.source_format
    &&& f.entity.target_format == e.target_format
    &&& f.entity.raster == e.raster
    &&& f.entity.preview == e.preview
    &&& !f.entity.selected
    &&& f.entity.completed_at is None
    &&& f.entity.encoded_result@.len() == 0
    &&& (f.error == ConversionError::Unsupported <==> e.target_format == Some(Format::WebP))
}

/// The relation between a store before and after one processor step: on an
/// empty queue nothing changes; otherwise the oldest queued entity leaves
/// the queue and lands in exactly one of `output` or the failure records.
pub open spec fn drain_step(pre: ImageStore, post: ImageStore, outcome: DrainOutcome, now: u64) -> bool {
    &&& post.id_bound() == pre.id_bound()
    &&& post.uploaded_seq() == pre.uploaded_seq()
    &&& (outcome == DrainOutcome::Empty <==> pre.queued_seq().len() == 0)
    &&& (pre.queued_seq().len() == 0 ==> post == pre)
    &&& (pre.queued_seq().len() > 0 ==> {
        let e = pre.queued_seq()[0];
        &&& post.queued_seq() == pre.queued_seq().drop_first()
        &&& (outcome == DrainOutcome::Converted ==> {
            &&& post.failed_seq() == pre.failed_seq()
            &&& post.output_seq().len() == pre.output_seq().len() + 1
            &&& post.output_seq().drop_last() == pre.output_seq()
            &&& completed_from(e, post.output_seq().last(), now)
        })
        &&& (outcome == DrainOutcome::Failed ==> {
            &&& post.output_seq() == pre.output_seq()
            &&& post.failed_seq().len() == pre.failed_seq().len() + 1
            &&& post.failed_seq().drop_last() == pre.failed_seq()
            &&& failed_from(e, post.failed_seq().last())
        })
        &&& (outcome == DrainOutcome::Converted <==> (e.target_format matches Some(t)
            && crate::engine::conversion_succeeds(e.raster@, t)))
        &&& (e.target_format == Some(Format::WebP) ==> outcome == DrainOutcome::Failed)
    })
}

/// For every identifier: the selected and the unselected part of a
/// sequence together hold it exactly as often as the sequence itself.
proof fn lemma_ids_filter_partition(s: Seq<ImageEntity>, x: u64)
    ensures
        entity_ids(selected_of(s)).to_multiset().count(x) + entity_ids(
            unselected_of(s),
        ).to_multiset().count(x) == entity_ids(s).to_multiset().count(x),
    decreases s.len(),
{
    broadcast use vstd::seq_lib::group_to_multiset_ensures;
    broadcast use vstd::multiset::group_multiset_axioms;

    if s.len() == 0 {
        reveal(Seq::filter);
        assert(entity_ids(selected_of(s)) =~= Seq::<u64>::empty());
        assert(entity_ids(unselected_of(s)) =~= Seq::<u64>::empty());
        assert(entity_ids(s) =~= Seq::<u64>::empty());
        Seq::<u64>::empty().to_multiset_ensures();
        assert(!Seq::<u64>::empty().contains(x));
    } else {
        let t = s.drop_last();
        let e = s.last();
        lemma_ids_filter_partition(t, x);
        assert(t.push(e) =~= s);
        t.lemma_filter_push(e, |en: ImageEntity| en.selected);
        t.lemma_filter_push(e, |en: ImageEntity| !en.selected);
        t.lemma_push_map_commute(|en: ImageEntity| en.id, e);
        entity_ids(t).to_multiset_ensures();
        if e.selected {
            assert(selected_of(s) == selected_of(t).push(e));
            assert(unselected_of(s) == unselected_of(t));
            selected_of(t).lemma_push_map_commute(|en: ImageEntity| en.id, e);
            entity_ids(selected_of(t)).to_multiset_ensures();
        } else {
            assert(selected_of(s) == selected_of(t));
            assert(unselected_of(s) == unselected_of(t).push(e));
            unselected_of(t).lemma_push_map_commute(|en: ImageEntity| en.id, e);
            entity_ids(unselected_of(t)).to_multiset_ensures();
        }
    }
}

/// Replaces the selection flag of the entity at `index`.
fn set_one(v: &mut Vec<ImageEntity>, index: usize, state: bool)
    requires
        index < old(v)@.len(),
    ensures
        final(v)@ == old(v)@.update(index as int, with_selected(old(v)@[index as int], state)),
{
    let mut e = v.remove(index);
    e.selected = state;
    v.insert(index, e);
    proof {
        assert(v@ =~= old(v)@.update(index as int, with_selected(old(v)@[index as int], state)));
    }
}

/// Replaces the selection flag of every entity in the vector.
fn set_all(v: &mut Vec<ImageEntity>, state: bool)
    ensures
        final(v)@ == all_selected(old(v)@, state),
{
    let ghost orig = v@;
    let mut rebuilt: Vec<ImageEntity> = Vec::new();
    proof {
        assert(rebuilt@ =~= all_selected(orig.take(0), state));
    }
    while v.len() > 0
        invariant
            rebuilt@.len() <= orig.len(),
            v@ == orig.skip(rebuilt@.len() as int),
            rebuilt@ == all_selected(orig.take(rebuilt@.len() as int), state),
        decreases v@.len(),
    {
        let ghost i = rebuilt@.len() as int;
        let mut e = v.remove(0);
        e.selected = state;
        proof {
            assert(v@ =~= orig.skip(i + 1));
            orig.lemma_take_succ_push(i);
            orig.take(i).lemma_push_map_commute(
                |en: ImageEntity| with_selected(en, state),
                orig[i],
            );
            assert(e == with_selected(orig[i], state));
        }
        rebuilt.push(e);
    }
    proof {
        orig.lemma_take_len();
    }
    *v = rebuilt;
}


/// Law: the identifiers handed out across any number of additions are
/// pairwise distinct across the union of the store's collections.
pub proof fn lemma_ids_pairwise_distinct(s: &ImageStore)
    requires
        s.wf(),
    ensures
        s.all_ids().no_duplicates(),
{
    broadcast use vstd::multiset::group_multiset_axioms;

    let a = entity_ids(s.uploaded_seq());
    let b = entity_ids(s.queued_seq());
    let c = entity_ids(s.output_seq());
    let d = entity_ids(s.failed_entities());
    lemma_multiset_commutative(a + b + c, d);
    lemma_multiset_commutative(a + b, c);
    lemma_multiset_commutative(a, b);
    assert forall|x: u64|
        s.all_ids().to_multiset().contains(x) implies s.all_ids().to_multiset().count(x)
        == 1 by {
        assert(s.all_ids().to_multiset().count(x) == s.id_count(x));
        assert(s.id_count(x) <= 1);
    }
    s.all_ids().lemma_multiset_has_no_duplicates_conv();
}

/// Law: queueing the selected entities stamps exactly them with the chosen
/// target format, keeps every entity left behind as it was in `uploaded`,
/// and preserves the combined identifier set of `uploaded` and `queued`.
pub proof fn lemma_queue_selected_preserves_ids(up: Seq<ImageEntity>, q: Seq<ImageEntity>, target: Format)
    ensures
        forall|i: int|
            0 <= i < stamped_all(selected_of(up), target).len()
                ==> (#[trigger] stamped_all(selected_of(up), target)[i]).target_format == Some(
                target,
            ),
        forall|i: int|
            0 <= i < unselected_of(up).len() ==> up.contains(#[trigger] unselected_of(up)[i]),
        entity_ids(unselected_of(up)).to_set().union(
            entity_ids(q + stamped_all(selected_of(up), target)).to_set(),
        ) == entity_ids(up).to_set().union(entity_ids(q).to_set()),
{
    broadcast use vstd::seq_lib::group_to_multiset_ensures;
    broadcast use vstd::multiset::group_multiset_axioms;
    broadcast use Seq::lemma_filter_contains_rev;

    let sel = selected_of(up);
    let unsel = unselected_of(up);
    let st = stamped_all(sel, target);
    assert forall|i: int| 0 <= i < unsel.len() implies up.contains(#[trigger] unsel[i]) by {
        assert(unsel.contains(unsel[i]));
    }
    assert(entity_ids(st) =~= entity_ids(sel));
    assert(entity_ids(q + st) =~= entity_ids(q) + entity_ids(st));
    let lhs = entity_ids(unsel).to_set().union(entity_ids(q + st).to_set());
    let rhs = entity_ids(up).to_set().union(entity_ids(q).to_set());
    assert forall|x: u64| lhs.contains(x) == rhs.contains(x) by {
        broadcast use vstd::set::group_set_axioms;
        broadcast use vstd::multiset::group_multiset_axioms;

        assert(lhs.contains(x) == (entity_ids(unsel).contains(x) || entity_ids(q + st).contains(
            x,
        )));
        assert(rhs.contains(x) == (entity_ids(up).contains(x) || entity_ids(q).contains(x)));
        lemma_ids_filter_partition(up, x);
        lemma_multiset_commutative(entity_ids(q), entity_ids(st));
        entity_ids(unsel).to_multiset_ensures();
        entity_ids(sel).to_multiset_ensures();
        entity_ids(up).to_multiset_ensures();
        entity_ids(q).to_multiset_ensures();
        entity_ids(q + st).to_multiset_ensures();
        entity_ids(st).to_multiset_ensures();
        assert(entity_ids(q + st).to_multiset().count(x) == entity_ids(q).to_multiset().count(x)
            + entity_ids(st).to_multiset().count(x));
        assert(entity_ids(st).to_multiset().count(x) == entity_ids(sel).to_multiset().count(x));
        assert(entity_ids(sel).to_multiset().count(x) + entity_ids(unsel).to_multiset().count(x)
            == entity_ids(up).to_multiset().count(x));
        assert(entity_ids(unsel).contains(x) == (entity_ids(unsel).to_multiset().count(x) > 0));
        assert(entity_ids(q + st).contains(x) == (entity_ids(q + st).to_multiset().count(x) > 0));
        assert(entity_ids(up).contains(x) == (entity_ids(up).to_multiset().count(x) > 0));
        assert(entity_ids(q).contains(x) == (entity_ids(q).to_multiset().count(x) > 0));
    }
    assert(lhs =~= rhs);
}

/// Law: one processor step never loses an entity: with a non-empty queue,
/// its head ends, under its identifier, in exactly one of `output` on
/// success or the failure records on failure.
pub proof fn lemma_drain_never_loses(pre: ImageStore, post: ImageStore, outcome: DrainOutcome, now: u64)
    requires
        drain_step(pre, post, outcome, now),
        pre.queued_seq().len() > 0,
    ensures
        outcome == DrainOutcome::Converted || outcome == DrainOutcome::Failed,
        outcome == DrainOutcome::Converted ==> post.output_seq().len() == pre.output_seq().len()
            + 1 && post.output_seq().last().id == pre.queued_seq()[0].id && post.failed_seq()
            == pre.failed_seq(),
        outcome == DrainOutcome::Failed ==> post.failed_seq().len() == pre.failed_seq().len() + 1
            && post.failed_seq().last().entity.id == pre.queued_seq()[0].id && post.output_seq()
            == pre.output_seq(),
{
}

/// Law: selecting all and then unselecting all via the two batch toggles
/// leaves every entity unselected and otherwise as it was, whatever each
/// entity's starting flag.
pub proof fn lemma_select_all_then_unselect_all(s: Seq<ImageEntity>)
    ensures
        all_selected(all_selected(s, true), false) == all_selected(s, false),
        forall|i: int|
            0 <= i < s.len() ==> (#[trigger] all_selected(all_selected(s, true), false)[i])
                == with_selected(s[i], false),
        forall|i: int|
            0 <= i < s.len() ==> !all_selected(all_selected(s, true), false)[i].selected,
{
    assert(all_selected(all_selected(s, true), false) =~= all_selected(s, false));
}

} // verus!
