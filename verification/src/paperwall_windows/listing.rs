//! The entries of a folder in the order in which the platform has their names.
//!
//! A name on Windows need not be Unicode, and two names can have one rendering. What orders them
//! is their code points, an unpaired surrogate among them by its own number.
use crate::paths::{is_video_path, FilePath, FilePathView};
use crate::videos::{Video, VideoView};
use crate::{paths, text, videos};
use vstd::prelude::*;

verus! {

/// The path of an entry, with the code points of its file name as the platform has it.
#[derive(Debug)]
pub struct ListedPath {
    pub path: FilePath,
    pub name_points: Vec<u32>,
}

/// The model of a `ListedPath`.
#[verifier::ext_equal]
pub struct ListedPathView {
    pub path: FilePathView,
    pub name_points: Seq<u32>,
}

impl View for ListedPath {
    type V = ListedPathView;

    open spec fn view(&self) -> ListedPathView {
        ListedPathView { path: self.path@, name_points: self.name_points@ }
    }
}

/// The code points of a text.
pub open spec fn points(text: Seq<char>) -> Seq<u32> {
    text.map_values(|character: char| character as u32)
}

/// The code points of a text that may be missing.
pub open spec fn optional_points(text: Option<Seq<char>>) -> Seq<u32> {
    match text {
        Some(text) => points(text),
        None => Seq::empty(),
    }
}

impl ListedPath {
    /// An entry whose name is Unicode.
    pub fn unicode(path: FilePath) -> (result: ListedPath)
        ensures
            result@.path == path@,
            result@.name_points == optional_points(path@.file_name),
            path@.file_name matches Some(name) ==> result@.name_points == points(name),
            path@.file_name is None ==> result@.name_points.len() == 0,
    {
        let mut name_points: Vec<u32> = Vec::new();
        if let Some(name) = &path.file_name {
            let source = text::characters(name);
            let mut position: usize = 0;
            while position < source.len()
                invariant
                    position <= source@.len(),
                    name_points@ =~= points(source@).take(position as int),
                decreases source@.len() - position,
            {
                name_points.push(source[position] as u32);
                position = position + 1;
            }
            assert(name_points@ =~= points(source@));
        }
        ListedPath { path, name_points }
    }
}

/// A video of a folder, with the code points of its file name.
#[derive(Debug)]
pub struct ListedVideo {
    pub video: Video,
    pub name_points: Vec<u32>,
}

/// The model of a `ListedVideo`.
#[verifier::ext_equal]
pub struct ListedVideoView {
    pub video: VideoView,
    pub name_points: Seq<u32>,
}

impl View for ListedVideo {
    type V = ListedVideoView;

    open spec fn view(&self) -> ListedVideoView {
        ListedVideoView { video: self.video@, name_points: self.name_points@ }
    }
}

/// The models of a row of videos.
pub open spec fn listed_views(videos: Seq<ListedVideo>) -> Seq<ListedVideoView> {
    videos.map_values(|video: ListedVideo| video@)
}

/// The videos of a row, without their code points.
pub open spec fn videos_alone(listed: Seq<ListedVideoView>) -> Seq<VideoView> {
    listed.map_values(|listed: ListedVideoView| listed.video)
}

/// The order of names by their code points: the first difference decides, and a name comes after
/// its own beginnings.
pub open spec fn points_precede(left: Seq<u32>, right: Seq<u32>) -> bool
    decreases left.len(),
{
    if right.len() == 0 {
        false
    } else if left.len() == 0 {
        true
    } else if left[0] != right[0] {
        left[0] < right[0]
    } else {
        points_precede(left.skip(1), right.skip(1))
    }
}

/// Tells whether `left` comes strictly before `right`.
pub fn points_come_before(left: &Vec<u32>, right: &Vec<u32>) -> (result: bool)
    ensures
        result == points_precede(left@, right@),
{
    let mut position: usize = 0;
    assert(left@.skip(0) =~= left@);
    assert(right@.skip(0) =~= right@);
    while position < left.len() && position < right.len()
        invariant
            position <= left@.len(),
            position <= right@.len(),
            points_precede(left@.skip(position as int), right@.skip(position as int))
                == points_precede(left@, right@),
        decreases left@.len() - position,
    {
        let ghost left_rest = left@.skip(position as int);
        let ghost right_rest = right@.skip(position as int);
        if left[position] != right[position] {
            return left[position] < right[position];
        }
        assert(left_rest.skip(1) =~= left@.skip(position + 1));
        assert(right_rest.skip(1) =~= right@.skip(position + 1));
        position = position + 1;
    }
    position < right.len()
}

/// Of two names at most one comes before the other, and one does unless they are equal.
pub proof fn lemma_points_total(left: Seq<u32>, right: Seq<u32>)
    ensures
        !(points_precede(left, right) && points_precede(right, left)),
        points_precede(left, right) || points_precede(right, left) || left == right,
    decreases left.len(),
{
    if left.len() > 0 && right.len() > 0 && left[0] == right[0] {
        lemma_points_total(left.skip(1), right.skip(1));
        if left.skip(1) == right.skip(1) {
            assert(left =~= seq![left[0]] + left.skip(1));
            assert(right =~= seq![right[0]] + right.skip(1));
        }
    } else if left.len() == 0 && right.len() == 0 {
        assert(left =~= right);
    }
}

/// The order carries over from one name to the next.
pub proof fn lemma_points_transitive(left: Seq<u32>, middle: Seq<u32>, right: Seq<u32>)
    requires
        points_precede(left, middle),
        points_precede(middle, right),
    ensures
        points_precede(left, right),
    decreases left.len(),
{
    if left.len() > 0 && left[0] == middle[0] && middle[0] == right[0] {
        lemma_points_transitive(left.skip(1), middle.skip(1), right.skip(1));
    }
}

/// `video` put into an ordered row, behind all that do not come after it.
pub open spec fn inserted(ordered: Seq<ListedVideoView>, video: ListedVideoView) -> Seq<
    ListedVideoView,
>
    decreases ordered.len(),
{
    if ordered.len() > 0 && points_precede(video.name_points, ordered.last().name_points) {
        inserted(ordered.drop_last(), video).push(ordered.last())
    } else {
        ordered.push(video)
    }
}

/// Some videos in the order of their code points. Videos of one name keep their order.
pub open spec fn by_points(videos: Seq<ListedVideoView>) -> Seq<ListedVideoView>
    decreases videos.len(),
{
    if videos.len() == 0 {
        Seq::empty()
    } else {
        inserted(by_points(videos.drop_last()), videos.last())
    }
}

/// Whether no video of a row has a name that comes before an earlier one's by code points.
pub open spec fn is_ordered(videos: Seq<ListedVideoView>) -> bool {
    forall|i: int, j: int|
        0 <= i < j < videos.len() ==> !points_precede(
            (#[trigger] videos[j]).name_points,
            (#[trigger] videos[i]).name_points,
        )
}

/// Puts `video` into the ordered row of videos.
fn insert_by_points(videos: &mut Vec<ListedVideo>, video: ListedVideo)
    ensures
        listed_views(final(videos)@) == inserted(listed_views(old(videos)@), video@),
{
    let ghost before = listed_views(videos@);
    let mut position: usize = videos.len();
    assert(before.take(position as int) =~= before);
    assert(before.skip(position as int) =~= Seq::<ListedVideoView>::empty());
    assert(inserted(before, video@) =~= inserted(before.take(position as int), video@)
        + before.skip(position as int));
    while position > 0 && points_come_before(&video.name_points, &videos[position - 1].name_points)
        invariant
            position <= videos@.len(),
            before == listed_views(videos@),
            inserted(before, video@) == inserted(before.take(position as int), video@)
                + before.skip(position as int),
        decreases position,
    {
        proof {
            let row = before.take(position as int);
            assert(row.drop_last() =~= before.take(position - 1));
            assert(row.last() == before[position - 1]);
            assert(before[position - 1] == videos@[position - 1]@);
            assert(inserted(row, video@) == inserted(before.take(position - 1), video@).push(
                before[position - 1],
            ));
            assert(inserted(before, video@) =~= inserted(before.take(position - 1), video@)
                + before.skip(position - 1));
        }
        position = position - 1;
    }
    proof {
        let row = before.take(position as int);
        if position > 0 {
            assert(row.last() == videos@[position - 1]@);
        }
        assert(inserted(row, video@) == row.push(video@));
    }
    let ghost model = video@;
    videos.insert(position, video);
    assert(listed_views(videos@) =~= before.take(position as int).push(model) + before.skip(
        position as int,
    ));
}

/// Puts videos in the order of their code points. Videos of one name keep their order.
pub fn sort_by_points(videos: Vec<ListedVideo>) -> (result: Vec<ListedVideo>)
    ensures
        listed_views(result@) == by_points(listed_views(videos@)),
{
    let ghost all = listed_views(videos@);
    let mut rest = videos;
    let mut waiting: Vec<ListedVideo> = Vec::new();
    while rest.len() > 0
        invariant
            all.len() == rest@.len() + waiting@.len(),
            all.take(rest@.len() as int) =~= listed_views(rest@),
            forall|i: int|
                0 <= i < waiting@.len() ==> (#[trigger] waiting@[i])@ == all[all.len() - 1 - i],
        decreases rest@.len(),
    {
        let ghost before = rest@;
        match rest.pop() {
            None => {},
            Some(video) => {
                assert(video@ == listed_views(before)[before.len() - 1]);
                assert(video@ == all.take(before.len() as int)[before.len() - 1]);
                assert(all.take(rest@.len() as int) =~= listed_views(rest@)) by {
                    assert(listed_views(rest@) =~= listed_views(before).drop_last());
                }
                waiting.push(video);
            },
        }
    }
    let mut result: Vec<ListedVideo> = Vec::new();
    assert(listed_views(result@) =~= by_points(all.take(0)));
    while waiting.len() > 0
        invariant
            waiting@.len() <= all.len(),
            forall|i: int|
                0 <= i < waiting@.len() ==> (#[trigger] waiting@[i])@ == all[all.len() - 1 - i],
            listed_views(result@) == by_points(all.take(all.len() - waiting@.len())),
        decreases waiting@.len(),
    {
        let ghost done = all.len() - waiting@.len();
        match waiting.pop() {
            None => {},
            Some(video) => {
                assert(video@ == all[done]);
                assert(all.take(done + 1).drop_last() =~= all.take(done));
                insert_by_points(&mut result, video);
            },
        }
    }
    assert(all.take(all.len() as int) =~= all);
    result
}

/// The video that an entry is, if it is one.
pub open spec fn video_of(entry: Option<ListedPath>) -> Option<ListedVideoView> {
    match entry {
        Some(listed) => if paths::is_video_name(listed@.path.file_name) {
            Some(
                ListedVideoView {
                    video: VideoView { name: listed@.path.file_name->0, path: listed@.path },
                    name_points: listed@.name_points,
                },
            )
        } else {
            None
        },
        None => None,
    }
}

/// The videos among some entries, in the order of the entries.
pub open spec fn videos_of(entries: Seq<Option<ListedPath>>) -> Seq<ListedVideoView>
    decreases entries.len(),
{
    if entries.len() == 0 {
        Seq::empty()
    } else {
        match video_of(entries.last()) {
            Some(video) => videos_of(entries.drop_last()).push(video),
            None => videos_of(entries.drop_last()),
        }
    }
}

/// Collects the videos among some entries.
pub fn collect_videos(entries: &Vec<Option<ListedPath>>) -> (result: Vec<ListedVideo>)
    ensures
        listed_views(result@) == videos_of(entries@),
{
    let mut result: Vec<ListedVideo> = Vec::new();
    let mut position: usize = 0;
    assert(listed_views(result@) =~= videos_of(entries@.take(0)));
    while position < entries.len()
        invariant
            position <= entries@.len(),
            listed_views(result@) == videos_of(entries@.take(position as int)),
        decreases entries@.len() - position,
    {
        let ghost longer = entries@.take(position + 1);
        assert(longer.drop_last() =~= entries@.take(position as int));
        assert(longer.last() == entries@[position as int]);
        if let Some(listed) = &entries[position] {
            if is_video_path(&listed.path) {
                if let Some(name) = &listed.path.file_name {
                    let ghost before = result@;
                    let name_points = listed.name_points.clone();
                    assert(name_points@ =~= listed.name_points@);
                    let video = Video { name: name.clone(), path: listed.path.copy() };
                    let listed_video = ListedVideo { video, name_points };
                    let ghost model = listed_video@;
                    result.push(listed_video);
                    assert(listed_views(result@) =~= listed_views(before).push(model));
                }
            }
        }
        position = position + 1;
    }
    assert(entries@.take(position as int) =~= entries@);
    result
}

/// What is put into a row is in it, with what was there before, and nothing else is.
proof fn lemma_inserted_elements(ordered: Seq<ListedVideoView>, video: ListedVideoView, index: int)
    requires
        0 <= index < inserted(ordered, video).len(),
    ensures
        inserted(ordered, video)[index] == video || ordered.contains(
            inserted(ordered, video)[index],
        ),
    decreases ordered.len(),
{
    if ordered.len() > 0 && points_precede(video.name_points, ordered.last().name_points) {
        let shorter = inserted(ordered.drop_last(), video);
        if index < shorter.len() {
            lemma_inserted_elements(ordered.drop_last(), video, index);
            if ordered.drop_last().contains(shorter[index]) {
                let i = choose|i: int|
                    0 <= i < ordered.drop_last().len() && ordered.drop_last()[i] == shorter[index];
                assert(ordered[i] == shorter[index]);
            }
        } else {
            assert(ordered[ordered.len() - 1] == ordered.last());
        }
    } else if index < ordered.len() {
        assert(inserted(ordered, video)[index] == ordered[index]);
    }
}

/// Putting a video into an ordered row leaves it ordered.
proof fn lemma_inserted_ordered(ordered: Seq<ListedVideoView>, video: ListedVideoView)
    requires
        is_ordered(ordered),
    ensures
        is_ordered(inserted(ordered, video)),
    decreases ordered.len(),
{
    let row = inserted(ordered, video);
    if ordered.len() > 0 && points_precede(video.name_points, ordered.last().name_points) {
        let shorter = inserted(ordered.drop_last(), video);
        assert(is_ordered(ordered.drop_last())) by {
            assert forall|i: int, j: int|
                0 <= i < j < ordered.drop_last().len() implies !points_precede(
                (#[trigger] ordered.drop_last()[j]).name_points,
                (#[trigger] ordered.drop_last()[i]).name_points,
            ) by {
                assert(!points_precede(ordered[j].name_points, ordered[i].name_points));
            }
        }
        lemma_inserted_ordered(ordered.drop_last(), video);
        assert forall|i: int, j: int| 0 <= i < j < row.len() implies !points_precede(
            (#[trigger] row[j]).name_points,
            (#[trigger] row[i]).name_points,
        ) by {
            assert(row[i] == shorter[i]);
            if j < shorter.len() {
                assert(row[j] == shorter[j]);
            } else {
                lemma_inserted_elements(ordered.drop_last(), video, i);
                if shorter[i] == video {
                    lemma_points_total(video.name_points, ordered.last().name_points);
                } else {
                    let k = choose|k: int|
                        0 <= k < ordered.drop_last().len() && ordered.drop_last()[k] == shorter[i];
                    assert(ordered[k] == shorter[i]);
                    assert(!points_precede(
                        ordered[ordered.len() - 1].name_points,
                        ordered[k].name_points,
                    ));
                }
            }
        }
    } else {
        assert forall|i: int, j: int| 0 <= i < j < row.len() implies !points_precede(
            (#[trigger] row[j]).name_points,
            (#[trigger] row[i]).name_points,
        ) by {
            if j < ordered.len() {
                assert(!points_precede(ordered[j].name_points, ordered[i].name_points));
            } else {
                let last = ordered[ordered.len() - 1];
                if i < ordered.len() - 1 {
                    assert(!points_precede(last.name_points, ordered[i].name_points));
                    lemma_points_total(last.name_points, ordered[i].name_points);
                    if points_precede(video.name_points, ordered[i].name_points) && points_precede(
                        ordered[i].name_points,
                        last.name_points,
                    ) {
                        lemma_points_transitive(
                            video.name_points,
                            ordered[i].name_points,
                            last.name_points,
                        );
                    }
                }
            }
        }
    }
}

/// Videos are shown in the order of their code points.
pub proof fn law_by_points_is_ordered(videos: Seq<ListedVideoView>)
    ensures
        is_ordered(by_points(videos)),
    decreases videos.len(),
{
    if videos.len() > 0 {
        law_by_points_is_ordered(videos.drop_last());
        lemma_inserted_ordered(by_points(videos.drop_last()), videos.last());
    }
}

/// Putting a video into a row adds that video and changes nothing else.
proof fn lemma_inserted_keeps(ordered: Seq<ListedVideoView>, video: ListedVideoView)
    ensures
        inserted(ordered, video).to_multiset() == ordered.to_multiset().insert(video),
    decreases ordered.len(),
{
    broadcast use vstd::seq_lib::group_to_multiset_ensures;

    if ordered.len() > 0 && points_precede(video.name_points, ordered.last().name_points) {
        lemma_inserted_keeps(ordered.drop_last(), video);
        assert(ordered =~= ordered.drop_last().push(ordered.last()));
        assert(ordered.to_multiset() =~= ordered.drop_last().to_multiset().insert(ordered.last()));
        assert(inserted(ordered, video).to_multiset() =~= ordered.to_multiset().insert(video));
    }
}

/// Ordering neither loses nor adds a video.
pub proof fn law_by_points_keeps_videos(videos: Seq<ListedVideoView>)
    ensures
        by_points(videos).to_multiset() == videos.to_multiset(),
    decreases videos.len(),
{
    broadcast use vstd::seq_lib::group_to_multiset_ensures;

    if videos.len() > 0 {
        law_by_points_keeps_videos(videos.drop_last());
        lemma_inserted_keeps(by_points(videos.drop_last()), videos.last());
        assert(videos =~= videos.drop_last().push(videos.last()));
    }
}

/// Whether the name of every video is Unicode, and its code points are those of the name.
pub open spec fn are_unicode(videos: Seq<ListedVideoView>) -> bool {
    forall|i: int|
        0 <= i < videos.len() ==> (#[trigger] videos[i]).name_points == points(
            videos[i].video.name,
        )
}

/// A code point holds the whole of a character.
proof fn lemma_point(character: char)
    ensures
        character as u32 as int == character as int,
{
}

/// Texts are ordered as their code points are.
proof fn lemma_points_order_texts(left: Seq<char>, right: Seq<char>)
    ensures
        points_precede(points(left), points(right)) == text::precedes(left, right),
    decreases left.len(),
{
    if left.len() > 0 && right.len() > 0 {
        lemma_point(left[0]);
        lemma_point(right[0]);
        if left[0] == right[0] {
            lemma_points_order_texts(left.skip(1), right.skip(1));
            assert(points(left).skip(1) =~= points(left.skip(1)));
            assert(points(right).skip(1) =~= points(right.skip(1)));
        }
    }
}

/// A video whose name is Unicode is put among such videos as by its name.
proof fn lemma_inserted_unicode(ordered: Seq<ListedVideoView>, video: ListedVideoView)
    requires
        are_unicode(ordered),
        video.name_points == points(video.video.name),
    ensures
        are_unicode(inserted(ordered, video)),
        videos_alone(inserted(ordered, video)) == videos::inserted(
            videos_alone(ordered),
            video.video,
        ),
    decreases ordered.len(),
{
    if ordered.len() > 0 {
        let last = ordered[ordered.len() - 1];
        assert(last.name_points == points(last.video.name));
        lemma_points_order_texts(video.video.name, last.video.name);
        let shorter = ordered.drop_last();
        assert(videos_alone(ordered).drop_last() =~= videos_alone(shorter));
        if points_precede(video.name_points, last.name_points) {
            assert(are_unicode(shorter)) by {
                assert forall|i: int| 0 <= i < shorter.len() implies (
                #[trigger] shorter[i]).name_points == points(shorter[i].video.name) by {
                    assert(shorter[i] == ordered[i]);
                }
            }
            lemma_inserted_unicode(shorter, video);
            let row = inserted(shorter, video);
            assert(videos_alone(row.push(last)) =~= videos_alone(row).push(last.video));
        } else {
            assert(videos_alone(ordered.push(video)) =~= videos_alone(ordered).push(video.video));
        }
    } else {
        assert(videos_alone(ordered.push(video)) =~= videos_alone(ordered).push(video.video));
    }
}

/// Videos whose names are Unicode are shown in the order of their names.
pub proof fn law_unicode_is_by_name(videos: Seq<ListedVideoView>)
    requires
        are_unicode(videos),
    ensures
        videos_alone(by_points(videos)) == videos::by_name(videos_alone(videos)),
        are_unicode(by_points(videos)),
    decreases videos.len(),
{
    if videos.len() == 0 {
        assert(videos_alone(by_points(videos)) =~= videos::by_name(videos_alone(videos)));
    } else {
        let shorter = videos.drop_last();
        assert(are_unicode(shorter)) by {
            assert forall|i: int| 0 <= i < shorter.len() implies (
            #[trigger] shorter[i]).name_points == points(shorter[i].video.name) by {
                assert(shorter[i] == videos[i]);
            }
        }
        law_unicode_is_by_name(shorter);
        assert(videos[videos.len() - 1] == videos.last());
        lemma_inserted_unicode(by_points(shorter), videos.last());
        assert(videos_alone(videos).drop_last() =~= videos_alone(shorter));
    }
}

/// Whether `left` and `right` agree up to `position`, and there `left` ends and `right` does not,
/// or both go on and `left` has the lesser code point.
pub open spec fn differ_first_at(left: Seq<u32>, right: Seq<u32>, position: int) -> bool {
    &&& 0 <= position <= left.len()
    &&& position < right.len()
    &&& left.take(position) == right.take(position)
    &&& position < left.len() ==> left[position] < right[position]
}

/// The order of names is that of a dictionary: what comes first is decided where the two differ
/// first, whatever follows and however long they are.
pub proof fn law_order_is_lexicographic(left: Seq<u32>, right: Seq<u32>)
    ensures
        points_precede(left, right) <==> exists|position: int|
            #[trigger] differ_first_at(left, right, position),
    decreases left.len(),
{
    if right.len() == 0 {
    } else if left.len() == 0 {
        assert(left.take(0) =~= right.take(0));
        assert(differ_first_at(left, right, 0));
    } else if left[0] != right[0] {
        if left[0] < right[0] {
            assert(left.take(0) =~= right.take(0));
            assert(differ_first_at(left, right, 0));
        }
        assert forall|position: int| #[trigger] differ_first_at(left, right, position) implies left[0]
            < right[0] by {
            if position > 0 {
                assert(left.take(position)[0] == right.take(position)[0]);
            }
        }
    } else {
        let (first, second) = (left.skip(1), right.skip(1));
        law_order_is_lexicographic(first, second);
        if points_precede(left, right) {
            let position = choose|position: int|
                #[trigger] differ_first_at(first, second, position);
            assert(left.take(position + 1) =~= seq![left[0]] + first.take(position));
            assert(right.take(position + 1) =~= seq![right[0]] + second.take(position));
            assert(differ_first_at(left, right, position + 1));
        }
        assert forall|position: int| #[trigger] differ_first_at(left, right, position) implies
            differ_first_at(first, second, position - 1) by {
            if position > 0 {
                assert(first.take(position - 1) =~= left.take(position).skip(1));
                assert(second.take(position - 1) =~= right.take(position).skip(1));
            }
        }
    }
}

/// The code points of a text are its characters' own numbers, one for each.
pub proof fn law_points_are_scalar_values(text: Seq<char>, index: int)
    requires
        0 <= index < text.len(),
    ensures
        points(text).len() == text.len(),
        points(text)[index] as int == text[index] as int,
{
    lemma_point(text[index]);
}

/// Whether some entry of a folder is this video: one whose path could be read and names a video.
pub open spec fn is_video_among(entries: Seq<Option<ListedPath>>, video: ListedVideoView) -> bool {
    exists|i: int|
        0 <= i < entries.len() && ((#[trigger] entries[i]) matches Some(listed)
            && paths::is_video_name(listed@.path.file_name) && listed@.path.file_name == Some(
            video.video.name,
        ) && listed@.path == video.video.path && listed@.name_points == video.name_points)
}

/// The videos among some entries are all of them and nothing else.
proof fn lemma_videos_of_contains(entries: Seq<Option<ListedPath>>, video: ListedVideoView)
    ensures
        videos_of(entries).contains(video) <==> is_video_among(entries, video),
    decreases entries.len(),
{
    if entries.len() > 0 {
        let earlier = entries.drop_last();
        let count = earlier.len() as int;
        lemma_videos_of_contains(earlier, video);
        assert forall|i: int| 0 <= i < count implies #[trigger] earlier[i] == entries[i] by {}
        if is_video_among(earlier, video) {
            let i = choose|i: int|
                0 <= i < earlier.len() && ((#[trigger] earlier[i]) matches Some(listed)
                    && paths::is_video_name(listed@.path.file_name) && listed@.path.file_name
                    == Some(video.video.name) && listed@.path == video.video.path
                    && listed@.name_points == video.name_points);
            assert(entries[i] == earlier[i]);
        }
        if is_video_among(entries, video) && !is_video_among(earlier, video) {
            let i = choose|i: int|
                0 <= i < entries.len() && ((#[trigger] entries[i]) matches Some(listed)
                    && paths::is_video_name(listed@.path.file_name) && listed@.path.file_name
                    == Some(video.video.name) && listed@.path == video.video.path
                    && listed@.name_points == video.name_points);
            if i < count {
                assert(earlier[i] == entries[i]);
            }
        }
        assert(entries[count] == entries.last());
        if let Some(last) = video_of(entries.last()) {
            let shorter = videos_of(earlier);
            let found = videos_of(entries);
            assert(found[shorter.len() as int] == last);
            assert forall|i: int| 0 <= i < shorter.len() implies #[trigger] shorter[i]
                == found[i] by {}
        }
    }
}

/// What a folder shows is every entry of it that is taken for a video, and nothing else.
pub proof fn law_folder_shows_its_videos(
    entries: Seq<Option<ListedPath>>,
    video: ListedVideoView,
)
    ensures
        by_points(videos_of(entries)).contains(video) <==> is_video_among(entries, video),
{
    broadcast use vstd::seq_lib::group_to_multiset_ensures;

    law_by_points_keeps_videos(videos_of(entries));
    lemma_videos_of_contains(entries, video);
    assert(by_points(videos_of(entries)).to_multiset().count(video) == videos_of(
        entries,
    ).to_multiset().count(video));
}

/// A folder shows no more videos than it has entries, and one more entry adds at most one.
pub proof fn law_entries_are_counted_once(entries: Seq<Option<ListedPath>>, entry: Option<ListedPath>)
    ensures
        videos_of(Seq::empty()).len() == 0,
        videos_of(entries.push(entry)).len() == videos_of(entries).len() + (if (entry matches Some(
            listed,
        ) && paths::is_video_name(listed@.path.file_name)) {
            1int
        } else {
            0int
        }),
        by_points(videos_of(entries)).len() == videos_of(entries).len(),
{
    broadcast use vstd::seq_lib::group_to_multiset_ensures;

    assert(entries.push(entry).drop_last() =~= entries);
    law_by_points_keeps_videos(videos_of(entries));
    assert(by_points(videos_of(entries)).to_multiset().len() == videos_of(
        entries,
    ).to_multiset().len());
}

/// A row of videos without their code points is the same videos in the same order.
pub proof fn law_videos_alone(listed: Seq<ListedVideoView>, index: int)
    requires
        0 <= index < listed.len(),
    ensures
        videos_alone(listed).len() == listed.len(),
        videos_alone(listed)[index] == listed[index].video,
{
}

} // verus!
