//! The list of source images of a batch: in the order in which they were
//! added, each path at most once, each with the state of its preview.

use crate::naming::{display_name, display_name_of};
use crate::raster::{RasterView, RgbaImage};
use ordermap::OrderMap;
use vstd::prelude::*;

verus! {

/// How far the preview of a source image is.
#[derive(Debug)]
pub enum ImageLoadingState {
    NotStarted,
    InProgress,
    /// The preview was decoded.
    Done(RgbaImage),
    /// The preview could not be decoded, for the reason in the message.
    Failure(String),
}

/// The state of a preview, with its pixels and its text as sequences.
pub enum LoadingView {
    NotStarted,
    InProgress,
    Done(RasterView),
    Failure(Seq<char>),
}

impl View for ImageLoadingState {
    type V = LoadingView;

    open spec fn view(&self) -> LoadingView {
        match self {
            ImageLoadingState::NotStarted => LoadingView::NotStarted,
            ImageLoadingState::InProgress => LoadingView::InProgress,
            ImageLoadingState::Done(preview) => LoadingView::Done(preview@),
            ImageLoadingState::Failure(message) => LoadingView::Failure(message@),
        }
    }
}

/// A source image of the batch.
#[derive(Debug)]
pub struct InputImage {
    pub state: ImageLoadingState,
    pub path: String,
    pub name: String,
}

/// A source image, with its strings as sequences.
pub struct InputImageView {
    pub state: LoadingView,
    pub path: Seq<char>,
    pub name: Seq<char>,
}

impl View for InputImage {
    type V = InputImageView;

    open spec fn view(&self) -> InputImageView {
        InputImageView { state: self.state@, path: self.path@, name: self.name@ }
    }
}

/// `ordermap::OrderMap`, a hash map that keeps its pairs in the order in
/// which their keys were first inserted. It is held and handed on as it
/// is; what it holds is known through [`map_entries`] alone.
#[verifier::external_type_specification]
#[verifier::external_body]
#[verifier::reject_recursive_types(K)]
#[verifier::reject_recursive_types(V)]
#[verifier::reject_recursive_types(S)]
pub struct ExOrderMap<K, V, S>(OrderMap<K, V, S>);

/// What a map holds: its pairs of key and value, in their order.
pub uninterp spec fn map_entries(map: OrderMap<String, InputImage>) -> Seq<
    (Seq<char>, InputImageView),
>;

/// `OrderMap::new`: a map without pairs.
#[verifier::external_body]
fn map_new() -> (map: OrderMap<String, InputImage>)
    ensures
        map_entries(map).len() == 0,
{
    OrderMap::new()
}

/// `OrderMap::len`: the number of pairs.
#[verifier::external_body]
fn map_len(map: &OrderMap<String, InputImage>) -> (len: usize)
    ensures
        len == map_entries(*map).len(),
{
    map.len()
}

/// `OrderMap::get_index_of`: the index of the pair with this key, if there
/// is one.
#[verifier::external_body]
fn map_get_index_of(map: &OrderMap<String, InputImage>, key: &str) -> (index: Option<usize>)
    ensures
        match index {
            Some(i) => i < map_entries(*map).len() && map_entries(*map)[i as int].0 == key@,
            None => forall|i: int|
                0 <= i < map_entries(*map).len() ==> (#[trigger] map_entries(*map)[i]).0 != key@,
        },
{
    map.get_index_of(key)
}

/// `OrderMap::get_index`: the pair at an index, if the index is below the
/// number of pairs.
#[verifier::external_body]
fn map_get_index(map: &OrderMap<String, InputImage>, index: usize) -> (pair: Option<
    (&String, &InputImage),
>)
    ensures
        match pair {
            Some((key, value)) => index < map_entries(*map).len() && map_entries(*map)[index as int]
                == (key@, value@),
            None => index >= map_entries(*map).len(),
        },
{
    map.get_index(index)
}

/// `OrderMap::insert`: where a pair with an equal key exists, it keeps its
/// place and gets the new value, and the old value is handed back; where
/// none exists, the pair is added as the last one.
#[verifier::external_body]
fn map_insert(map: &mut OrderMap<String, InputImage>, key: String, value: InputImage) -> (previous:
    Option<InputImage>)
    ensures
        match previous {
            Some(replaced) => exists|i: int|
                0 <= i < map_entries(*old(map)).len() && #[trigger] map_entries(*old(map))[i] == (
                    key@,
                    replaced@,
                ) && map_entries(*final(map)) == map_entries(*old(map)).update(i, (key@, value@)),
            None => {
                &&& forall|i: int|
                    0 <= i < map_entries(*old(map)).len() ==> (#[trigger] map_entries(
                        *old(map),
                    )[i]).0 != key@
                &&& map_entries(*final(map)) == map_entries(*old(map)).push((key@, value@))
            },
        },
{
    map.insert(key, value)
}

/// `OrderMap::remove_index`: the pair at an index is taken out and handed
/// back, and the pairs behind it move up by one, in their order. An index
/// that is not below the number of pairs changes nothing.
#[verifier::external_body]
fn map_remove_index(map: &mut OrderMap<String, InputImage>, index: usize) -> (removed: Option<
    (String, InputImage),
>)
    ensures
        match removed {
            Some((key, value)) => index < map_entries(*old(map)).len() && map_entries(
                *old(map),
            )[index as int] == (key@, value@) && map_entries(*final(map)) == map_entries(
                *old(map),
            ).remove(index as int),
            None => index >= map_entries(*old(map)).len() && map_entries(*final(map))
                == map_entries(*old(map)),
        },
{
    map.remove_index(index)
}

/// `OrderMap::keys`: a copy of each key, in the order of the pairs.
#[verifier::external_body]
fn map_keys(map: &OrderMap<String, InputImage>) -> (keys: Vec<String>)
    ensures
        keys@.len() == map_entries(*map).len(),
        forall|i: int| 0 <= i < keys@.len() ==> (#[trigger] keys@[i])@ == map_entries(*map)[i].0,
{
    map.keys().cloned().collect()
}

/// Calls `mimetype_detector::match_mime` with the type `image/heic`: it
/// asks the matchers that are registered under that type whether one of
/// them takes the first bytes of the file. The matchers are a matter of the
/// process, so nothing is promised of the answer.
#[verifier::external_body]
fn sniff_heic(header: &[u8]) -> (is_heic: bool) {
    mimetype_detector::match_mime(header, mimetype_detector::IMAGE_HEIC)
}

/// An image with this path is listed.
pub open spec fn listed(images: Seq<InputImageView>, path: Seq<char>) -> bool {
    exists|i: int| 0 <= i < images.len() && (#[trigger] images[i]).path == path
}

/// No path is listed twice.
pub open spec fn each_path_once(images: Seq<InputImageView>) -> bool {
    forall|i: int, j: int|
        0 <= i < j < images.len() ==> (#[trigger] images[i]).path != (#[trigger] images[j]).path
}

/// A source image as it enters the list: its preview not started, its
/// name the one that is displayed for its file name.
pub open spec fn new_image(path: Seq<char>, file_name: Option<Seq<char>>) -> InputImageView {
    InputImageView { state: LoadingView::NotStarted, path, name: display_name_of(file_name) }
}

/// The list after an attempt to add a path: the image is added at the end
/// if its content was found to be HEIC and its path is not listed yet, and
/// else the list stays as it is.
pub open spec fn after_add(
    images: Seq<InputImageView>,
    path: Seq<char>,
    file_name: Option<Seq<char>>,
    is_heic: bool,
) -> Seq<InputImageView> {
    if is_heic && !listed(images, path) {
        images.push(new_image(path, file_name))
    } else {
        images
    }
}

/// The list after the image with this path got a new state of its preview.
/// If the path is not listed, for one because the image was removed in the
/// meantime, the list stays as it is.
pub open spec fn after_state(
    images: Seq<InputImageView>,
    path: Seq<char>,
    state: LoadingView,
) -> Seq<InputImageView> {
    Seq::new(
        images.len(),
        |i: int|
            if images[i].path == path {
                InputImageView { state, path: images[i].path, name: images[i].name }
            } else {
                images[i]
            },
    )
}

/// The file name of a path, if it has one, as a sequence.
pub open spec fn name_view(file_name: Option<&str>) -> Option<Seq<char>> {
    match file_name {
        Some(name) => Some(name@),
        None => None,
    }
}

/// The source images of a batch.
#[derive(Debug)]
pub struct InputImageState {
    images: OrderMap<String, InputImage>,
}

impl View for InputImageState {
    type V = Seq<InputImageView>;

    closed spec fn view(&self) -> Seq<InputImageView> {
        entries_values(map_entries(self.images))
    }
}

/// The values of the pairs of a map.
pub open spec fn entries_values(entries: Seq<(Seq<char>, InputImageView)>) -> Seq<InputImageView> {
    Seq::new(entries.len(), |i: int| entries[i].1)
}

/// Each pair is keyed by the path of its image, and no key stands twice.
pub open spec fn keyed_by_path(entries: Seq<(Seq<char>, InputImageView)>) -> bool {
    &&& forall|i: int| 0 <= i < entries.len() ==> (#[trigger] entries[i]).0 == entries[i].1.path
    &&& each_path_once(entries_values(entries))
}

impl InputImageState {
    #[verifier::type_invariant]
    spec fn consistent(&self) -> bool {
        keyed_by_path(map_entries(self.images))
    }

    /// A list without images.
    pub fn new() -> (list: InputImageState)
        ensures
            list@.len() == 0,
            each_path_once(list@),
    {
        InputImageState { images: map_new() }
    }

    /// The number of images.
    pub fn len(&self) -> (len: usize)
        ensures
            len == self@.len(),
            each_path_once(self@),
    {
        proof {
            use_type_invariant(self);
        }
        map_len(&self.images)
    }

    /// The number of images as a batch counts them, in 16 bits.
    pub fn total_count(&self) -> (count: u16)
        ensures
            count == self@.len() % 0x1_0000,
    {
        let len = map_len(&self.images);
        (len % 0x1_0000) as u16
    }

    /// Whether an image with this path is listed.
    pub fn contains(&self, path: &str) -> (found: bool)
        ensures
            found == listed(self@, path@),
    {
        proof {
            use_type_invariant(self);
        }
        let index = map_get_index_of(&self.images, path);
        proof {
            let entries = map_entries(self.images);
            if index is Some {
                assert(self@[index->0 as int].path == path@);
            } else {
                assert forall|i: int| 0 <= i < self@.len() implies (#[trigger] self@[i]).path
                    != path@ by {
                    assert(entries[i].0 != path@);
                }
            }
        }
        index.is_some()
    }

    /// The image at `index`, in the order in which the images were added.
    pub fn get_index(&self, index: usize) -> (image: Option<&InputImage>)
        ensures
            match image {
                Some(image) => index < self@.len() && image@ == self@[index as int],
                None => index >= self@.len(),
            },
    {
        match map_get_index(&self.images, index) {
            Some((_, image)) => Some(image),
            None => None,
        }
    }

    /// Adds the image at `path` unless it is listed already or its content
    /// was not found to be HEIC. Says whether it was added.
    pub fn add_sniffed(&mut self, path: String, file_name: Option<&str>, is_heic: bool) -> (added:
        bool)
        ensures
            added == (is_heic && !listed(old(self)@, path@)),
            final(self)@ == after_add(old(self)@, path@, name_view(file_name), is_heic),
            each_path_once(final(self)@),
    {
        proof {
            use_type_invariant(&*self);
        }
        if !is_heic || self.contains(path.as_str()) {
            return false;
        }
        let image = InputImage {
            state: ImageLoadingState::NotStarted,
            path: path.clone(),
            name: display_name(file_name),
        };
        let ghost before = map_entries(self.images);
        let mut images = map_new();
        core::mem::swap(&mut self.images, &mut images);
        let previous = map_insert(&mut images, path, image);
        proof {
            let after = map_entries(images);
            if previous is Some {
                let i = choose|i: int|
                    0 <= i < before.len() && #[trigger] before[i] == (path@, previous->0@);
                assert(entries_values(before)[i].path == path@);
            }
            assert(after == before.push((path@, image@)));
            assert(entries_values(after) =~= entries_values(before).push(image@));
            assert forall|i: int, j: int| 0 <= i < j < after.len() implies (
            #[trigger] entries_values(after)[i]).path != (#[trigger] entries_values(
                after,
            )[j]).path by {
                if j < before.len() {
                    assert(entries_values(before)[i].path != entries_values(before)[j].path);
                } else {
                    assert(entries_values(before)[i].path != path@);
                }
            }
        }
        core::mem::swap(&mut self.images, &mut images);
        true
    }

    /// Adds the image at `path` if it is not listed yet and the first bytes
    /// of its file, `header`, are those of a HEIC file. Says whether it was
    /// added. A path that is listed is not looked at again.
    pub fn add(&mut self, path: String, file_name: Option<&str>, header: &[u8]) -> (added: bool)
        ensures
            listed(old(self)@, path@) ==> !added,
            final(self)@ == after_add(old(self)@, path@, name_view(file_name), added),
            each_path_once(final(self)@),
    {
        proof {
            use_type_invariant(&*self);
        }
        if self.contains(path.as_str()) {
            return false;
        }
        let is_heic = sniff_heic(header);
        self.add_sniffed(path, file_name, is_heic)
    }

    /// Takes the image at `index` out of the list and hands it back. The
    /// images behind it keep their order. An index beyond the list changes
    /// nothing.
    pub fn remove_index(&mut self, index: usize) -> (removed: Option<InputImage>)
        ensures
            match removed {
                Some(image) => index < old(self)@.len() && image@ == old(self)@[index as int]
                    && final(self)@ == old(self)@.remove(index as int),
                None => index >= old(self)@.len() && final(self)@ == old(self)@,
            },
            each_path_once(final(self)@),
    {
        proof {
            use_type_invariant(&*self);
        }
        let ghost before = map_entries(self.images);
        let mut images = map_new();
        core::mem::swap(&mut self.images, &mut images);
        let removed = map_remove_index(&mut images, index);
        proof {
            let after = map_entries(images);
            if removed is Some {
                assert(after == before.remove(index as int));
                assert(entries_values(after) =~= entries_values(before).remove(index as int));
                assert forall|i: int| 0 <= i < after.len() implies (#[trigger] after[i]).0
                    == after[i].1.path by {
                    if i < index {
                        assert(after[i] == before[i]);
                    } else {
                        assert(after[i] == before[i + 1]);
                    }
                }
                assert forall|i: int, j: int| 0 <= i < j < after.len() implies (
                #[trigger] entries_values(after)[i]).path != (#[trigger] entries_values(
                    after,
                )[j]).path by {
                    let a = if i < index { i } else { i + 1 };
                    let b = if j < index { j } else { j + 1 };
                    assert(entries_values(after)[i] == entries_values(before)[a]);
                    assert(entries_values(after)[j] == entries_values(before)[b]);
                }
            }
        }
        core::mem::swap(&mut self.images, &mut images);
        match removed {
            Some((_, image)) => Some(image),
            None => None,
        }
    }

    /// Gives the image at `path` a new state of its preview, if the path is
    /// listed. Says whether it is.
    fn set_state(&mut self, path: &str, state: ImageLoadingState) -> (found: bool)
        ensures
            found == listed(old(self)@, path@),
            final(self)@ == after_state(old(self)@, path@, state@),
            !found ==> final(self)@ == old(self)@,
            each_path_once(final(self)@),
    {
        proof {
            use_type_invariant(&*self);
        }
        let ghost before = map_entries(self.images);
        let ghost listing = self@;
        let found = self.contains(path);
        let index = map_get_index_of(&self.images, path);
        let updated = match index {
            Some(i) => match map_get_index(&self.images, i) {
                Some((key, image)) => Some(
                    (
                        key.clone(),
                        InputImage { state, path: image.path.clone(), name: image.name.clone() },
                    ),
                ),
                None => None,
            },
            None => None,
        };
        match updated {
            Some((key, image)) => {
                let ghost i = index->0 as int;
                let mut images = map_new();
                core::mem::swap(&mut self.images, &mut images);
                let previous = map_insert(&mut images, key, image);
                proof {
                    let after = map_entries(images);
                    assert(before[i].0 == path@);
                    assert(key@ == path@);
                    if previous is Some {
                        let j = choose|j: int|
                            0 <= j < before.len() && #[trigger] before[j] == (key@, previous->0@)
                                && after == before.update(j, (key@, image@));
                        if j != i {
                            assert(entries_values(before)[i].path == entries_values(
                                before,
                            )[j].path);
                        }
                        assert(after == before.update(i, (key@, image@)));
                    } else {
                        assert(before[i].0 != key@);
                    }
                    assert forall|k: int| 0 <= k < after.len() implies entries_values(after)[k]
                        == after_state(listing, path@, state@)[k] by {
                        if k != i {
                            assert(entries_values(before)[k].path != entries_values(
                                before,
                            )[i].path);
                        }
                    }
                    assert(entries_values(after) =~= after_state(listing, path@, state@));
                    assert forall|a: int, b: int| 0 <= a < b < after.len() implies (
                    #[trigger] entries_values(after)[a]).path != (#[trigger] entries_values(
                        after,
                    )[b]).path by {
                        assert(entries_values(before)[a].path != entries_values(before)[b].path);
                    }
                }
                core::mem::swap(&mut self.images, &mut images);
            },
            None => {
                proof {
                    assert forall|k: int| 0 <= k < listing.len() implies listing[k] == after_state(
                        listing,
                        path@,
                        state@,
                    )[k] by {
                        assert(before[k].0 != path@);
                    }
                    assert(listing =~= after_state(listing, path@, state@));
                }
            },
        }
        found
    }

    /// Records that the preview of the image at `path` is being decoded.
    /// If the path is not listed, nothing changes. Says whether it is
    /// listed.
    pub fn begin_thumbnail(&mut self, path: &str) -> (found: bool)
        ensures
            found == listed(old(self)@, path@),
            final(self)@ == after_state(old(self)@, path@, LoadingView::InProgress),
            !found ==> final(self)@ == old(self)@,
            each_path_once(final(self)@),
    {
        self.set_state(path, ImageLoadingState::InProgress)
    }

    /// Records how the decoding of the preview of the image at `path`
    /// ended: with the preview, or with the message of its failure. If the
    /// path is not listed any more, the outcome is dropped and nothing
    /// changes. Says whether the path is listed.
    pub fn finish_thumbnail(&mut self, path: &str, outcome: Result<RgbaImage, String>) -> (found:
        bool)
        ensures
            found == listed(old(self)@, path@),
            final(self)@ == after_state(
                old(self)@,
                path@,
                match outcome {
                    Ok(preview) => LoadingView::Done(preview@),
                    Err(message) => LoadingView::Failure(message@),
                },
            ),
            !found ==> final(self)@ == old(self)@,
            each_path_once(final(self)@),
    {
        let state = match outcome {
            Ok(preview) => ImageLoadingState::Done(preview),
            Err(message) => ImageLoadingState::Failure(message),
        };
        self.set_state(path, state)
    }

    /// The paths of the images, in the order in which they were added.
    pub fn paths(&self) -> (paths: Vec<String>)
        ensures
            paths@.len() == self@.len(),
            forall|i: int| 0 <= i < paths@.len() ==> (#[trigger] paths@[i])@ == self@[i].path,
    {
        proof {
            use_type_invariant(self);
        }
        let paths = map_keys(&self.images);
        assert forall|i: int| 0 <= i < paths@.len() implies (#[trigger] paths@[i])@
            == self@[i].path by {
            assert(map_entries(self.images)[i].0 == map_entries(self.images)[i].1.path);
        }
        paths
    }
}

impl Default for InputImageState {
    fn default() -> (list: InputImageState)
        ensures
            list@.len() == 0,
    {
        InputImageState::new()
    }
}

/// Adding keeps each path listed once.
pub proof fn lemma_add_keeps_once(
    images: Seq<InputImageView>,
    path: Seq<char>,
    file_name: Option<Seq<char>>,
    is_heic: bool,
)
    requires
        each_path_once(images),
    ensures
        each_path_once(after_add(images, path, file_name, is_heic)),
        is_heic ==> listed(after_add(images, path, file_name, is_heic), path),
{
    let after = after_add(images, path, file_name, is_heic);
    if is_heic && !listed(images, path) {
        assert(after[images.len() as int].path == path);
        assert forall|i: int, j: int| 0 <= i < j < after.len() implies (#[trigger] after[i]).path
            != (#[trigger] after[j]).path by {
            if j < images.len() {
                assert(images[i].path != images[j].path);
            } else {
                assert(images[i].path != path);
            }
        }
    } else if is_heic {
        let i = choose|i: int| 0 <= i < images.len() && (#[trigger] images[i]).path == path;
        assert(after[i].path == path);
    }
}

/// Adding the same path twice lists it once: the second attempt leaves the
/// list as the first one made it, and exactly one image has the path.
pub proof fn lemma_add_twice(
    images: Seq<InputImageView>,
    path: Seq<char>,
    first_name: Option<Seq<char>>,
    second_name: Option<Seq<char>>,
    second_is_heic: bool,
)
    requires
        each_path_once(images),
    ensures
        ({
            let once = after_add(images, path, first_name, true);
            let twice = after_add(once, path, second_name, second_is_heic);
            &&& twice == once
            &&& listed(twice, path)
            &&& forall|i: int, j: int|
                0 <= i < twice.len() && 0 <= j < twice.len() && (#[trigger] twice[i]).path == path
                    && (#[trigger] twice[j]).path == path ==> i == j
        }),
{
    lemma_add_keeps_once(images, path, first_name, true);
    let once = after_add(images, path, first_name, true);
    assert forall|i: int, j: int|
        0 <= i < once.len() && 0 <= j < once.len() && (#[trigger] once[i]).path == path && (
        #[trigger] once[j]).path == path implies i == j by {
        if i < j {
            assert(once[i].path != once[j].path);
        } else if j < i {
            assert(once[j].path != once[i].path);
        }
    }
}

/// A new state for a path that is not listed changes nothing.
pub proof fn lemma_state_of_unlisted(
    images: Seq<InputImageView>,
    path: Seq<char>,
    state: LoadingView,
)
    requires
        !listed(images, path),
    ensures
        after_state(images, path, state) == images,
{
    assert forall|i: int| 0 <= i < images.len() implies after_state(images, path, state)[i]
        == images[i] by {
        assert(images[i].path != path);
    }
    assert(after_state(images, path, state) =~= images);
}

/// When an image is removed while its preview is being decoded, the
/// outcome of the decoding, whatever it is, leaves the list as the removal
/// made it.
pub proof fn lemma_finish_after_remove(
    images: Seq<InputImageView>,
    index: int,
    state: LoadingView,
)
    requires
        each_path_once(images),
        0 <= index < images.len(),
    ensures
        !listed(images.remove(index), images[index].path),
        after_state(images.remove(index), images[index].path, state) == images.remove(index),
{
    let rest = images.remove(index);
    let path = images[index].path;
    assert forall|i: int| 0 <= i < rest.len() implies (#[trigger] rest[i]).path != path by {
        if i < index {
            assert(rest[i] == images[i]);
            assert(images[i].path != images[index].path);
        } else {
            assert(rest[i] == images[i + 1]);
            assert(images[index].path != images[i + 1].path);
        }
    }
    lemma_state_of_unlisted(rest, path, state);
}

} // verus!
