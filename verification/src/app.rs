//! The navigation state machine and its single owner.
//!
//! `App` owns the cache, the view state, the viewport and the breadcrumb
//! path.  User input and background-task completions are applied to it one
//! at a time; work that needs a remote call is recorded in an outbound
//! event queue that the surrounding program drains.

use vstd::prelude::*;
use vstd::string::StringExecFns;

use crate::error::AppError;
use crate::event::{
    AppEventType, CompleteDownloadObjectResult, CompleteInitializeResult, CompleteLoadObjectResult,
    CompleteLoadObjectsResult, ConsoleTarget, DownloadObjectRequest, LoadObjectRequest,
    LoadObjectsRequest,
};
use crate::item::{cached_items, AppObjects, FileDetail, FileVersion, Item};

verus! {

/// Rows taken by the header above the list.
pub const HEADER_HEIGHT: usize = 3;

/// Rows taken by the footer below the list.
pub const FOOTER_HEIGHT: usize = 2;

/// Rows taken by the border around the list area.
pub const LIST_BORDER_HEIGHT: usize = 2;

/// The scroll window over the current listing: which entry is selected
/// and which entry is shown first, for a window of `height` rows.
#[derive(Debug, PartialEq, Eq)]
pub struct AppListState {
    pub selected: usize,
    pub offset: usize,
    pub height: usize,
}

/// The well-formedness of a viewport over a listing of `total` entries:
/// the selection is in range and visible, and the window does not hang
/// past the end of a listing that fills it.
pub open spec fn viewport_inv(ls: AppListState, total: int) -> bool {
    &&& ls.height >= 1
    &&& ls.offset <= ls.selected
    &&& total > 0 ==> ls.selected < total && ls.selected - ls.offset < ls.height
    &&& total >= ls.height ==> ls.offset + ls.height <= total
    &&& total <= ls.height ==> ls.offset == 0
}

impl AppListState {
    pub fn new(height: usize) -> (r: AppListState)
        requires
            height >= 8,
        ensures
            r.selected == 0,
            r.offset == 0,
            r.height == height - 7,
    {
        AppListState { selected: 0, offset: 0, height: AppListState::calc_list_height(height) }
    }

    /// Rows left for list entries once header, footer and border are
    /// taken from the terminal height.
    pub fn calc_list_height(height: usize) -> (r: usize)
        requires
            height >= 7,
        ensures
            r == height - 7,
    {
        height - HEADER_HEIGHT - FOOTER_HEIGHT - LIST_BORDER_HEIGHT
    }

    /// One step down.  Never wraps: the caller handles the last entry.
    pub fn select_next(&mut self)
        requires
            old(self).offset <= old(self).selected,
            old(self).selected < usize::MAX,
            old(self).height >= 1,
        ensures
            final(self).selected == old(self).selected + 1,
            final(self).offset == (if old(self).selected - old(self).offset == old(self).height
                - 1 {
                old(self).offset + 1
            } else {
                old(self).offset as int
            }),
            final(self).height == old(self).height,
    {
        if self.selected - self.offset == self.height - 1 {
            self.offset += 1;
        }
        self.selected += 1;
    }

    /// One step up.  Never wraps: the caller handles the first entry.
    pub fn select_prev(&mut self)
        requires
            old(self).offset <= old(self).selected,
            old(self).selected >= 1,
        ensures
            final(self).selected == old(self).selected - 1,
            final(self).offset == (if old(self).selected == old(self).offset {
                old(self).offset - 1
            } else {
                old(self).offset as int
            }),
            final(self).height == old(self).height,
    {
        if self.selected - self.offset == 0 {
            self.offset -= 1;
        }
        self.selected -= 1;
    }

    /// One page down; lands exactly on the last entry when a whole page
    /// does not fit any more.
    pub fn select_next_page(&mut self, total: usize)
        requires
            total >= 1,
            old(self).selected + old(self).height <= usize::MAX,
            total + old(self).height <= usize::MAX,
        ensures
            final(self).height == old(self).height,
            ({
                let h = old(self).height as int;
                let s = old(self).selected as int;
                if total < h {
                    final(self).selected == total - 1 && final(self).offset == 0
                } else if s + h < total - 1 {
                    final(self).selected == s + h && final(self).offset == (if s + h + h > total
                        - 1 {
                        total - h
                    } else {
                        s + h
                    })
                } else {
                    final(self).selected == total - 1 && final(self).offset == total - h
                }
            }),
            viewport_inv(*old(self), total as int) ==> viewport_inv(*final(self), total as int),
    {
        if total < self.height {
            self.selected = total - 1;
            self.offset = 0;
        } else if self.selected + self.height < total - 1 {
            self.selected += self.height;
            if self.selected + self.height > total - 1 {
                self.offset = total - self.height;
            } else {
                self.offset = self.selected;
            }
        } else {
            self.selected = total - 1;
            self.offset = total - self.height;
        }
    }

    /// One page up; lands exactly on the first entry when a whole page
    /// does not fit any more.
    pub fn select_prev_page(&mut self, total: usize)
        requires
            old(self).height >= 1,
        ensures
            final(self).height == old(self).height,
            ({
                let h = old(self).height as int;
                let s = old(self).selected as int;
                if total < h {
                    final(self).selected == 0 && final(self).offset == 0
                } else if s > h {
                    final(self).selected == s - h && final(self).offset == (if s - h < h {
                        0
                    } else {
                        s - h - h + 1
                    })
                } else {
                    final(self).selected == 0 && final(self).offset == 0
                }
            }),
            viewport_inv(*old(self), total as int) ==> viewport_inv(*final(self), total as int),
    {
        if total < self.height {
            self.selected = 0;
            self.offset = 0;
        } else if self.selected > self.height {
            self.selected -= self.height;
            if self.selected < self.height {
                self.offset = 0;
            } else {
                self.offset = self.selected - self.height + 1;
            }
        } else {
            self.selected = 0;
            self.offset = 0;
        }
    }

    /// Jump to the first entry.
    pub fn select_first(&mut self)
        ensures
            final(self).selected == 0,
            final(self).offset == 0,
            final(self).height == old(self).height,
    {
        self.selected = 0;
        self.offset = 0;
    }

    /// Jump to the last of `total` entries; the window slides to the end
    /// only when the listing overfills it.
    pub fn select_last(&mut self, total: usize)
        requires
            total >= 1,
        ensures
            final(self).selected == total - 1,
            final(self).offset == (if old(self).height < total {
                total - old(self).height
            } else {
                old(self).offset as int
            }),
            final(self).height == old(self).height,
            viewport_inv(*old(self), total as int) ==> viewport_inv(*final(self), total as int)
                && final(self).offset == vstd::math::max(0, total - old(self).height),
    {
        self.selected = total - 1;
        if self.height < total {
            self.offset = total - self.height;
        }
    }
}

/// The mode the interface is in.  `Help` wraps the one state it was
/// opened from; no transition ever nests `Help` inside `Help`.
#[derive(Debug, PartialEq, Eq)]
pub enum ViewState {
    Initializing,
    BucketList,
    ObjectList,
    Detail(DetailViewState),
    Help(Box<ViewState>),
}

impl Clone for ViewState {
    fn clone(&self) -> (res: Self)
        ensures
            res == self,
        decreases self,
    {
        match self {
            ViewState::Initializing => ViewState::Initializing,
            ViewState::BucketList => ViewState::BucketList,
            ViewState::ObjectList => ViewState::ObjectList,
            ViewState::Detail(d) => ViewState::Detail(*d),
            ViewState::Help(prev) => ViewState::Help(Box::new((&**prev).clone())),
        }
    }
}

/// Which tab of the detail page is active.
#[derive(Debug, PartialEq, Eq, Clone, Copy)]
pub enum DetailViewState {
    Detail,
    Version,
}

/// The single-slot notification area: the most recent message only.
#[derive(Debug, PartialEq, Eq)]
pub enum Notification {
    Quiet,
    Info(String),
    Error(String),
}

/// Everything the renderer reads each frame.
#[derive(Debug)]
pub struct AppViewState {
    pub list_state: AppListState,
    pub view_state: ViewState,
    pub notification: Notification,
    pub is_loading: bool,
}

impl AppViewState {
    pub fn new(height: usize) -> (r: AppViewState)
        requires
            height >= 8,
        ensures
            r.list_state.selected == 0 && r.list_state.offset == 0,
            r.list_state.height == height - 7,
            r.view_state == ViewState::Initializing,
            r.notification == Notification::Quiet,
            r.is_loading == true,
    {
        AppViewState {
            list_state: AppListState::new(height),
            view_state: ViewState::Initializing,
            notification: Notification::Quiet,
            is_loading: true,
        }
    }
}

/// The segments after the bucket name, each closed with `'/'`: the key
/// prefix the remote store is asked about.
pub open spec fn prefix_of(keys: Seq<Seq<char>>) -> Seq<char>
    decreases keys.len(),
{
    if keys.len() <= 1 {
        Seq::empty()
    } else {
        prefix_of(keys.drop_last()) + keys.last() + seq!['/']
    }
}

/// The segments joined with `sep` between them.
pub open spec fn join_segments(keys: Seq<Seq<char>>, sep: Seq<char>) -> Seq<char>
    decreases keys.len(),
{
    if keys.len() == 0 {
        Seq::empty()
    } else if keys.len() == 1 {
        keys[0]
    } else {
        join_segments(keys.drop_last(), sep) + sep + keys.last()
    }
}

/// The composite key of one object's metadata cache entry.
pub open spec fn map_key_of(bucket: Seq<char>, prefix: Seq<char>, name: Seq<char>) -> Seq<char> {
    bucket + seq!['/'] + prefix + name
}

/// The owner of all mutable interface state.  Every mutation happens
/// through one of its methods, applied one event at a time.
pub struct App {
    pub app_view_state: AppViewState,
    pub app_objects: AppObjects,
    /// The breadcrumb path: bucket name first, then prefix segments.
    pub current_keys: Vec<String>,
    /// Requests for the surrounding program, oldest first.
    pub pending_events: Vec<AppEventType>,
}

impl App {
    /// The current navigation path as a sequence of segment views.
    pub open spec fn current_path(self) -> Seq<Seq<char>> {
        self.current_keys.deep_view()
    }

    /// The listing the interface is currently showing.
    pub open spec fn spec_current_items(self) -> Seq<Item> {
        cached_items(self.app_objects.items_map(), self.current_path())
    }

    /// True in the two states that show a listing.
    pub open spec fn in_list_view(self) -> bool {
        self.app_view_state.view_state == ViewState::BucketList || self.app_view_state.view_state
            == ViewState::ObjectList
    }

    /// The entry under the cursor, when the cursor is in range.
    pub open spec fn spec_selected_item(self) -> Option<Item> {
        let items = self.spec_current_items();
        let i = self.app_view_state.list_state.selected;
        if i < items.len() {
            Some(items[i as int])
        } else {
            None
        }
    }

    /// True when the entry under the cursor is a file.
    pub open spec fn selected_is_file(self) -> bool {
        match self.spec_selected_item() {
            Some(item) => item is File,
            None => false,
        }
    }

    /// The metadata cache key of the entry under the cursor.
    pub open spec fn spec_selected_key(self) -> Seq<char> {
        map_key_of(
            self.current_path()[0],
            prefix_of(self.current_path()),
            match self.spec_selected_item() {
                Some(item) => item.spec_name(),
                None => Seq::empty(),
            },
        )
    }

    /// The baseline the mutating methods keep: a usable window height and
    /// an offset that never passes the cursor.
    pub open spec fn wf(self) -> bool {
        &&& self.app_view_state.list_state.height >= 1
        &&& self.app_view_state.list_state.offset <= self.app_view_state.list_state.selected
    }

    pub fn new(height: usize) -> (r: App)
        requires
            height >= 8,
        ensures
            r.wf(),
            r.app_view_state.list_state.selected == 0 && r.app_view_state.list_state.offset == 0,
            r.app_view_state.list_state.height == height - 7,
            r.app_view_state.view_state == ViewState::Initializing,
            r.app_view_state.notification == Notification::Quiet,
            r.app_view_state.is_loading == true,
            r.app_objects.items_map() == Map::<Seq<Seq<char>>, Seq<Item>>::empty(),
            r.app_objects.details_map() == Map::<Seq<char>, (FileDetail, Seq<FileVersion>)>::empty(),
            r.current_path() == Seq::<Seq<char>>::empty(),
            r.pending_events@ == Seq::<AppEventType>::empty(),
    {
        let r = App {
            app_view_state: AppViewState::new(height),
            app_objects: AppObjects::new(),
            current_keys: Vec::new(),
            pending_events: Vec::new(),
        };
        proof {
            assert(r.current_path() =~= Seq::<Seq<char>>::empty());
        }
        r
    }

    /// Recompute the usable window height for a new terminal height.  The
    /// offset is left as it was.
    pub fn resize(&mut self, height: usize)
        requires
            height >= 8,
        ensures
            final(self).app_view_state.list_state.height == height - 7,
            final(self).app_view_state.list_state.selected == old(
                self,
            ).app_view_state.list_state.selected,
            final(self).app_view_state.list_state.offset == old(
                self,
            ).app_view_state.list_state.offset,
            final(self).app_view_state.view_state == old(self).app_view_state.view_state,
            final(self).app_view_state.notification == old(self).app_view_state.notification,
            final(self).app_view_state.is_loading == old(self).app_view_state.is_loading,
            final(self).app_objects == old(self).app_objects,
            final(self).current_keys == old(self).current_keys,
            final(self).pending_events == old(self).pending_events,
    {
        self.app_view_state.list_state.height = AppListState::calc_list_height(height);
    }

    /// The path rendered for the header: segments joined by `" / "`,
    /// padded with one space on both sides.
    pub fn current_key_string(&self) -> (r: String)
        ensures
            r@ == seq![' '] + join_segments(self.current_path(), seq![' ', '/', ' ']) + seq![' '],
    {
        proof {
            reveal_strlit(" ");
            reveal_strlit(" / ");
            assert(" "@ =~= seq![' ']);
            assert(" / "@ =~= seq![' ', '/', ' ']);
        }
        let mut s = String::from_str(" ");
        let n = self.current_keys.len();
        let mut i: usize = 0;
        while i < n
            invariant
                n == self.current_keys@.len(),
                i <= n,
                " / "@ == seq![' ', '/', ' '],
                s@ == seq![' '] + join_segments(
                    self.current_path().take(i as int),
                    seq![' ', '/', ' '],
                ),
            decreases n - i,
        {
            proof {
                assert(self.current_path().take(i as int + 1).drop_last() =~= self.current_path()
                    .take(i as int));
                assert(self.current_path().take(i as int + 1).last() == self.current_keys@[
                    i as int
                ]@);
            }
            if i > 0 {
                s.append(" / ");
            }
            s.append(self.current_keys[i].as_str());
            proof {
                let path1 = self.current_path().take(i as int + 1);
                if i == 0 {
                    assert(path1.len() == 1);
                    assert(path1[0] == self.current_keys@[0]@);
                    assert(s@ =~= seq![' '] + join_segments(path1, seq![' ', '/', ' ']));
                } else {
                    assert(join_segments(path1, seq![' ', '/', ' ']) == join_segments(
                        self.current_path().take(i as int),
                        seq![' ', '/', ' '],
                    ) + seq![' ', '/', ' '] + self.current_keys@[i as int]@);
                    assert(s@ =~= seq![' '] + join_segments(path1, seq![' ', '/', ' ']));
                }
            }
            i = i + 1;
        }
        proof {
            assert(self.current_path().take(n as int) =~= self.current_path());
        }
        s.append(" ");
        proof {
            assert(s@ =~= seq![' '] + join_segments(self.current_path(), seq![' ', '/', ' '])
                + seq![' ']);
        }
        s
    }

    /// The bucket the path starts with.
    pub fn current_bucket(&self) -> (r: String)
        requires
            self.current_path().len() >= 1,
        ensures
            r@ == self.current_path()[0],
    {
        self.current_keys[0].clone()
    }

    /// The bucket the path starts with, if the path is not at the root.
    pub fn current_bucket_opt(&self) -> (r: Option<&String>)
        ensures
            match r {
                Some(s) => self.current_path().len() >= 1 && s@ == self.current_path()[0],
                None => self.current_path().len() == 0,
            },
    {
        if self.current_keys.len() == 0 {
            None
        } else {
            Some(&self.current_keys[0])
        }
    }

    /// The key prefix under the bucket: every path segment after the
    /// first, each closed with `'/'`.
    pub fn current_object_prefix(&self) -> (r: String)
        ensures
            r@ == prefix_of(self.current_path()),
    {
        let mut s = String::new();
        let n = self.current_keys.len();
        if n <= 1 {
            return s;
        }
        proof {
            reveal_strlit("/");
            assert("/"@ =~= seq!['/']);
        }
        let mut i: usize = 1;
        while i < n
            invariant
                n == self.current_keys@.len(),
                1 <= i <= n,
                "/"@ == seq!['/'],
                s@ == prefix_of(self.current_path().take(i as int)),
            decreases n - i,
        {
            proof {
                assert(self.current_path().take(i as int + 1).drop_last() =~= self.current_path()
                    .take(i as int));
                assert(self.current_path().take(i as int + 1).last() == self.current_keys@[
                    i as int
                ]@);
            }
            s.append(self.current_keys[i].as_str());
            s.append("/");
            proof {
                assert(s@ =~= prefix_of(self.current_path().take(i as int)) + self.current_keys@[
                    i as int
                ]@ + seq!['/']);
            }
            i = i + 1;
        }
        proof {
            assert(self.current_path().take(n as int) =~= self.current_path());
        }
        s
    }

    /// The composite metadata cache key for one object.
    pub fn object_detail_map_key(&self, bucket: &String, prefix: &String, name: &String) -> (r:
        String)
        ensures
            r@ == map_key_of(bucket@, prefix@, name@),
    {
        let mut r = bucket.clone();
        r.append("/");
        r.append(prefix.as_str());
        r.append(name.as_str());
        proof {
            reveal_strlit("/");
            assert("/"@ =~= seq!['/']);
            assert(r@ =~= map_key_of(bucket@, prefix@, name@));
        }
        r
    }

    /// The listing the interface is currently showing; empty when the
    /// path was never loaded.
    pub fn current_items(&self) -> (r: Vec<Item>)
        ensures
            r@ == self.spec_current_items(),
    {
        self.app_objects.get_items(&self.current_keys)
    }

    /// How long the current listing is.
    pub fn current_items_len(&self) -> (r: usize)
        ensures
            r == self.spec_current_items().len(),
    {
        self.app_objects.get_items_len(&self.current_keys)
    }

    /// The entry under the cursor, when the cursor is in range.
    pub fn get_current_selected(&self) -> (r: Option<&Item>)
        ensures
            match r {
                Some(item) => self.spec_selected_item() == Some(*item),
                None => self.spec_selected_item() is None,
            },
    {
        let i = self.app_view_state.list_state.selected;
        self.app_objects.get_item(&self.current_keys, i)
    }
}

/// What a help toggle does to the view state: a no-op before
/// initialization, an unwrap when help is already shown, a single wrap
/// otherwise.
pub open spec fn toggle_rel(v: ViewState, w: ViewState) -> bool {
    match v {
        ViewState::Initializing => w == v,
        ViewState::Help(prev) => w == *prev,
        _ => w matches ViewState::Help(q) && *q == v,
    }
}

/// Opening help and closing it again returns to the exact prior view
/// state, the active detail tab included: from any state that offers
/// help, two toggles in a row are the identity.
pub proof fn lemma_toggle_help_twice(v: ViewState, w: ViewState, u: ViewState)
    requires
        !(v is Initializing),
        !(v is Help),
        toggle_rel(v, w),
        toggle_rel(w, u),
    ensures
        u == v,
{
}

/// True when `b` differs from `a` at most in the viewport.
pub open spec fn same_but_viewport(a: App, b: App) -> bool {
    &&& b.app_objects == a.app_objects
    &&& b.current_keys == a.current_keys
    &&& b.pending_events == a.pending_events
    &&& b.app_view_state.view_state == a.app_view_state.view_state
    &&& b.app_view_state.notification == a.app_view_state.notification
    &&& b.app_view_state.is_loading == a.app_view_state.is_loading
}

/// True when `b` differs from `a` at most in the view state.
pub open spec fn same_but_view_state(a: App, b: App) -> bool {
    &&& b.app_objects == a.app_objects
    &&& b.current_keys == a.current_keys
    &&& b.pending_events == a.pending_events
    &&& b.app_view_state.list_state == a.app_view_state.list_state
    &&& b.app_view_state.notification == a.app_view_state.notification
    &&& b.app_view_state.is_loading == a.app_view_state.is_loading
}

/// What `move_down` decided to do, computed before any state is touched.
enum MoveDownStep {
    Stay,
    ShowDetail,
    RequestDetail,
    Descend(String),
}

impl App {
    /// One step down the listing; wraps to the first entry from the last.
    pub fn select_next(&mut self)
        requires
            old(self).wf(),
        ensures
            final(self).wf(),
            same_but_viewport(*old(self), *final(self)),
            final(self).app_view_state.list_state.height == old(
                self,
            ).app_view_state.list_state.height,
            !old(self).in_list_view() ==> *final(self) == *old(self),
            old(self).in_list_view() ==> ({
                let len = old(self).spec_current_items().len() as int;
                let ls = old(self).app_view_state.list_state;
                let ls2 = final(self).app_view_state.list_state;
                if len == 0 || ls.selected >= len - 1 {
                    ls2.selected == 0 && ls2.offset == 0
                } else {
                    ls2.selected == ls.selected + 1 && ls2.offset == (if ls.selected - ls.offset
                        == ls.height - 1 {
                        ls.offset + 1
                    } else {
                        ls.offset as int
                    })
                }
            }),
            viewport_inv(
                old(self).app_view_state.list_state,
                old(self).spec_current_items().len() as int,
            ) ==> viewport_inv(
                final(self).app_view_state.list_state,
                old(self).spec_current_items().len() as int,
            ),
    {
        match self.app_view_state.view_state {
            ViewState::Initializing | ViewState::Detail(_) | ViewState::Help(_) => {},
            ViewState::BucketList | ViewState::ObjectList => {
                let current_selected = self.app_view_state.list_state.selected;
                let len = self.current_items_len();
                if len == 0 || current_selected >= len - 1 {
                    self.app_view_state.list_state.select_first();
                } else {
                    self.app_view_state.list_state.select_next();
                }
            },
        }
    }

    /// One step up the listing; wraps to the last entry from the first.
    pub fn select_prev(&mut self)
        requires
            old(self).wf(),
        ensures
            final(self).wf(),
            same_but_viewport(*old(self), *final(self)),
            final(self).app_view_state.list_state.height == old(
                self,
            ).app_view_state.list_state.height,
            !old(self).in_list_view() ==> *final(self) == *old(self),
            old(self).in_list_view() ==> ({
                let len = old(self).spec_current_items().len() as int;
                let ls = old(self).app_view_state.list_state;
                let ls2 = final(self).app_view_state.list_state;
                if len == 0 {
                    ls2.selected == 0 && ls2.offset == 0
                } else if ls.selected == 0 {
                    ls2.selected == len - 1 && ls2.offset == (if ls.height < len {
                        len - ls.height
                    } else {
                        ls.offset as int
                    })
                } else {
                    ls2.selected == ls.selected - 1 && ls2.offset == (if ls.selected == ls.offset {
                        ls.offset - 1
                    } else {
                        ls.offset as int
                    })
                }
            }),
            viewport_inv(
                old(self).app_view_state.list_state,
                old(self).spec_current_items().len() as int,
            ) ==> viewport_inv(
                final(self).app_view_state.list_state,
                old(self).spec_current_items().len() as int,
            ),
    {
        match self.app_view_state.view_state {
            ViewState::Initializing | ViewState::Detail(_) | ViewState::Help(_) => {},
            ViewState::BucketList | ViewState::ObjectList => {
                let current_selected = self.app_view_state.list_state.selected;
                let len = self.current_items_len();
                if len == 0 {
                    self.app_view_state.list_state.select_first();
                } else if current_selected == 0 {
                    self.app_view_state.list_state.select_last(len);
                } else {
                    self.app_view_state.list_state.select_prev();
                }
            },
        }
    }

    /// One page down the listing.
    pub fn select_next_page(&mut self)
        requires
            old(self).wf(),
            old(self).in_list_view() ==> {
                let len = old(self).spec_current_items().len() as int;
                let ls = old(self).app_view_state.list_state;
                &&& len >= 1
                &&& ls.selected + ls.height <= usize::MAX
                &&& len + ls.height <= usize::MAX
            },
        ensures
            final(self).wf(),
            same_but_viewport(*old(self), *final(self)),
            final(self).app_view_state.list_state.height == old(
                self,
            ).app_view_state.list_state.height,
            !old(self).in_list_view() ==> *final(self) == *old(self),
            old(self).in_list_view() ==> ({
                let total = old(self).spec_current_items().len() as int;
                let h = old(self).app_view_state.list_state.height as int;
                let s = old(self).app_view_state.list_state.selected as int;
                let ls2 = final(self).app_view_state.list_state;
                if total < h {
                    ls2.selected == total - 1 && ls2.offset == 0
                } else if s + h < total - 1 {
                    ls2.selected == s + h && ls2.offset == (if s + h + h > total - 1 {
                        total - h
                    } else {
                        s + h
                    })
                } else {
                    ls2.selected == total - 1 && ls2.offset == total - h
                }
            }),
            viewport_inv(
                old(self).app_view_state.list_state,
                old(self).spec_current_items().len() as int,
            ) ==> viewport_inv(
                final(self).app_view_state.list_state,
                old(self).spec_current_items().len() as int,
            ),
    {
        match self.app_view_state.view_state {
            ViewState::Initializing | ViewState::Detail(_) | ViewState::Help(_) => {},
            ViewState::BucketList | ViewState::ObjectList => {
                let len = self.current_items_len();
                self.app_view_state.list_state.select_next_page(len);
            },
        }
    }

    /// One page up the listing.
    pub fn select_prev_page(&mut self)
        requires
            old(self).wf(),
        ensures
            final(self).wf(),
            same_but_viewport(*old(self), *final(self)),
            final(self).app_view_state.list_state.height == old(
                self,
            ).app_view_state.list_state.height,
            !old(self).in_list_view() ==> *final(self) == *old(self),
            old(self).in_list_view() ==> ({
                let total = old(self).spec_current_items().len() as int;
                let h = old(self).app_view_state.list_state.height as int;
                let s = old(self).app_view_state.list_state.selected as int;
                let ls2 = final(self).app_view_state.list_state;
                if total < h {
                    ls2.selected == 0 && ls2.offset == 0
                } else if s > h {
                    ls2.selected == s - h && ls2.offset == (if s - h < h {
                        0
                    } else {
                        s - h - h + 1
                    })
                } else {
                    ls2.selected == 0 && ls2.offset == 0
                }
            }),
            viewport_inv(
                old(self).app_view_state.list_state,
                old(self).spec_current_items().len() as int,
            ) ==> viewport_inv(
                final(self).app_view_state.list_state,
                old(self).spec_current_items().len() as int,
            ),
    {
        match self.app_view_state.view_state {
            ViewState::Initializing | ViewState::Detail(_) | ViewState::Help(_) => {},
            ViewState::BucketList | ViewState::ObjectList => {
                let len = self.current_items_len();
                self.app_view_state.list_state.select_prev_page(len);
            },
        }
    }

    /// Jump to the first entry of the listing.
    pub fn select_first(&mut self)
        ensures
            same_but_viewport(*old(self), *final(self)),
            final(self).app_view_state.list_state.height == old(
                self,
            ).app_view_state.list_state.height,
            !old(self).in_list_view() ==> *final(self) == *old(self),
            old(self).in_list_view() ==> final(self).app_view_state.list_state.selected == 0
                && final(self).app_view_state.list_state.offset == 0,
            old(self).wf() ==> final(self).wf(),
            viewport_inv(
                old(self).app_view_state.list_state,
                old(self).spec_current_items().len() as int,
            ) ==> viewport_inv(
                final(self).app_view_state.list_state,
                old(self).spec_current_items().len() as int,
            ),
    {
        match self.app_view_state.view_state {
            ViewState::Initializing | ViewState::Detail(_) | ViewState::Help(_) => {},
            ViewState::BucketList | ViewState::ObjectList => {
                self.app_view_state.list_state.select_first();
            },
        }
    }

    /// Jump to the last entry of the listing.
    pub fn select_last(&mut self)
        requires
            old(self).in_list_view() ==> old(self).spec_current_items().len() >= 1,
        ensures
            same_but_viewport(*old(self), *final(self)),
            final(self).app_view_state.list_state.height == old(
                self,
            ).app_view_state.list_state.height,
            !old(self).in_list_view() ==> *final(self) == *old(self),
            old(self).in_list_view() ==> ({
                let len = old(self).spec_current_items().len() as int;
                let ls = old(self).app_view_state.list_state;
                let ls2 = final(self).app_view_state.list_state;
                ls2.selected == len - 1 && ls2.offset == (if ls.height < len {
                    len - ls.height
                } else {
                    ls.offset as int
                })
            }),
            old(self).in_list_view() && viewport_inv(
                old(self).app_view_state.list_state,
                old(self).spec_current_items().len() as int,
            ) ==> final(self).app_view_state.list_state.offset == vstd::math::max(
                0,
                old(self).spec_current_items().len() - old(self).app_view_state.list_state.height,
            ),
            viewport_inv(
                old(self).app_view_state.list_state,
                old(self).spec_current_items().len() as int,
            ) ==> viewport_inv(
                final(self).app_view_state.list_state,
                old(self).spec_current_items().len() as int,
            ) && final(self).wf(),
    {
        match self.app_view_state.view_state {
            ViewState::Initializing | ViewState::Detail(_) | ViewState::Help(_) => {},
            ViewState::BucketList | ViewState::ObjectList => {
                let len = self.current_items_len();
                self.app_view_state.list_state.select_last(len);
            },
        }
    }

    /// Descend into the selected entry: show a file's detail (loading it
    /// first if it is not cached), or push a bucket or prefix onto the
    /// path (loading its listing if it is not cached).
    pub fn move_down(&mut self)
        requires
            old(self).in_list_view() && old(self).selected_is_file() ==> old(
                self,
            ).current_path().len() >= 1,
        ensures
            !old(self).in_list_view() ==> *final(self) == *old(self),
            old(self).in_list_view() ==> match old(self).spec_selected_item() {
                Option::Some(item) => {
                    if item is File {
                        if old(self).app_objects.details_map().contains_key(
                            old(self).spec_selected_key(),
                        ) {
                            &&& same_but_view_state(*old(self), *final(self))
                            &&& final(self).app_view_state.view_state == ViewState::Detail(
                                DetailViewState::Detail,
                            )
                        } else {
                            &&& final(self).pending_events@ == old(self).pending_events@.push(
                                AppEventType::LoadObject,
                            )
                            &&& final(self).app_view_state.is_loading == true
                            &&& final(self).app_objects == old(self).app_objects
                            &&& final(self).current_keys == old(self).current_keys
                            &&& final(self).app_view_state.view_state == old(
                                self,
                            ).app_view_state.view_state
                            &&& final(self).app_view_state.list_state == old(
                                self,
                            ).app_view_state.list_state
                            &&& final(self).app_view_state.notification == old(
                                self,
                            ).app_view_state.notification
                        }
                    } else {
                        &&& final(self).current_path() == old(self).current_path().push(
                            item.spec_name(),
                        )
                        &&& final(self).app_view_state.list_state.selected == 0
                        &&& final(self).app_view_state.list_state.offset == 0
                        &&& final(self).app_view_state.list_state.height == old(
                            self,
                        ).app_view_state.list_state.height
                        &&& final(self).app_objects == old(self).app_objects
                        &&& final(self).app_view_state.view_state == old(
                            self,
                        ).app_view_state.view_state
                        &&& final(self).app_view_state.notification == old(
                            self,
                        ).app_view_state.notification
                        &&& (if old(self).app_objects.items_map().contains_key(
                            old(self).current_path().push(item.spec_name()),
                        ) {
                            final(self).pending_events == old(self).pending_events && final(self).app_view_state.is_loading == old(self).app_view_state.is_loading
                        } else {
                            final(self).pending_events@ == old(self).pending_events@.push(
                                AppEventType::LoadObjects,
                            ) && final(self).app_view_state.is_loading == true
                        })
                    }
                },
                Option::None => *final(self) == *old(self),
            },
    {
        match self.app_view_state.view_state {
            ViewState::Initializing | ViewState::Detail(_) | ViewState::Help(_) => {},
            ViewState::BucketList | ViewState::ObjectList => {
                let step: MoveDownStep = match self.get_current_selected() {
                    None => MoveDownStep::Stay,
                    Some(item) => match item {
                        Item::File { .. } => {
                            if self.exists_current_object_detail() {
                                MoveDownStep::ShowDetail
                            } else {
                                MoveDownStep::RequestDetail
                            }
                        },
                        _ => MoveDownStep::Descend(item.name().clone()),
                    },
                };
                match step {
                    MoveDownStep::Stay => {},
                    MoveDownStep::ShowDetail => {
                        self.app_view_state.view_state = ViewState::Detail(DetailViewState::Detail);
                    },
                    MoveDownStep::RequestDetail => {
                        self.pending_events.push(AppEventType::LoadObject);
                        self.app_view_state.is_loading = true;
                    },
                    MoveDownStep::Descend(name) => {
                        let ghost old_path = self.current_path();
                        let ghost seg = name@;
                        self.current_keys.push(name);
                        proof {
                            assert(self.current_path() =~= old_path.push(seg));
                        }
                        self.app_view_state.list_state.select_first();
                        if !self.exists_current_objects() {
                            self.pending_events.push(AppEventType::LoadObjects);
                            self.app_view_state.is_loading = true;
                        }
                    },
                }
            },
        }
    }

    /// Whether the metadata of the selected entry is already cached.
    pub fn exists_current_object_detail(&self) -> (r: bool)
        requires
            self.current_path().len() >= 1,
        ensures
            r == match self.spec_selected_item() {
                Option::Some(_) => self.app_objects.details_map().contains_key(
                    self.spec_selected_key(),
                ),
                Option::None => false,
            },
    {
        let bucket = self.current_bucket();
        let prefix = self.current_object_prefix();
        match self.get_current_selected() {
            Some(selected) => {
                let map_key = self.object_detail_map_key(&bucket, &prefix, selected.name());
                self.app_objects.exists_object_details(&map_key)
            },
            None => false,
        }
    }

    /// Whether the listing for the current path is already cached.
    pub fn exists_current_objects(&self) -> (r: bool)
        ensures
            r == self.app_objects.items_map().contains_key(self.current_path()),
    {
        self.app_objects.exists_item(&self.current_keys)
    }

    /// Go back one level: pop one path segment in a listing, leave the
    /// detail page, or close help.
    pub fn move_up(&mut self)
        ensures
            old(self).app_view_state.view_state == ViewState::Initializing ==> *final(self) == *old(self),
            old(self).in_list_view() ==> {
                if old(self).current_path().len() >= 1 {
                    &&& final(self).current_path() == old(self).current_path().drop_last()
                    &&& final(self).app_view_state.list_state.selected == 0
                    &&& final(self).app_view_state.list_state.offset == 0
                    &&& final(self).app_view_state.list_state.height == old(
                        self,
                    ).app_view_state.list_state.height
                    &&& final(self).app_objects == old(self).app_objects
                    &&& final(self).pending_events == old(self).pending_events
                    &&& final(self).app_view_state.view_state == old(self).app_view_state.view_state
                    &&& final(self).app_view_state.notification == old(
                        self,
                    ).app_view_state.notification
                    &&& final(self).app_view_state.is_loading == old(self).app_view_state.is_loading
                } else {
                    &&& final(self).current_keys@ == old(self).current_keys@
                    &&& final(self).app_objects == old(self).app_objects
                    &&& final(self).pending_events == old(self).pending_events
                    &&& final(self).app_view_state == old(self).app_view_state
                }
            },
            old(self).app_view_state.view_state is Detail ==> same_but_view_state(
                *old(self),
                *final(self),
            ) && final(self).app_view_state.view_state == ViewState::ObjectList,
            old(self).app_view_state.view_state is Help ==> same_but_view_state(
                *old(self),
                *final(self),
            ) && toggle_rel(
                old(self).app_view_state.view_state,
                final(self).app_view_state.view_state,
            ),
    {
        match self.app_view_state.view_state {
            ViewState::Initializing => {},
            ViewState::BucketList | ViewState::ObjectList => {
                let ghost old_path = self.current_path();
                proof {
                    assert(old_path.len() == self.current_keys@.len());
                }
                let key = self.current_keys.pop();
                if key.is_some() {
                    proof {
                        assert(self.current_path() =~= old_path.drop_last());
                    }
                    self.app_view_state.list_state.select_first();
                }
            },
            ViewState::Detail(_) => {
                self.app_view_state.view_state = ViewState::ObjectList;
            },
            ViewState::Help(_) => {
                self.toggle_help();
            },
        }
    }

    /// Clear the whole path, back to the bucket list, whatever the depth.
    pub fn back_to_bucket_list(&mut self)
        ensures
            !old(self).in_list_view() ==> *final(self) == *old(self),
            old(self).in_list_view() ==> {
                &&& final(self).current_path() == Seq::<Seq<char>>::empty()
                &&& final(self).app_objects == old(self).app_objects
                &&& final(self).pending_events == old(self).pending_events
                &&& final(self).app_view_state == old(self).app_view_state
            },
    {
        match self.app_view_state.view_state {
            ViewState::Initializing | ViewState::Detail(_) | ViewState::Help(_) => {},
            ViewState::BucketList | ViewState::ObjectList => {
                self.current_keys.clear();
                proof {
                    assert(self.current_path() =~= Seq::<Seq<char>>::empty());
                }
            },
        }
    }

    /// Switch between the detail tab and the version tab.
    pub fn select_tabs(&mut self)
        ensures
            same_but_view_state(*old(self), *final(self)),
            !(old(self).app_view_state.view_state is Detail) ==> *final(self) == *old(self),
            old(self).app_view_state.view_state == ViewState::Detail(DetailViewState::Detail)
                ==> final(self).app_view_state.view_state == ViewState::Detail(
                DetailViewState::Version,
            ),
            old(self).app_view_state.view_state == ViewState::Detail(DetailViewState::Version)
                ==> final(self).app_view_state.view_state == ViewState::Detail(
                DetailViewState::Detail,
            ),
    {
        match self.app_view_state.view_state {
            ViewState::Initializing
            | ViewState::BucketList
            | ViewState::ObjectList
            | ViewState::Help(_) => {},
            ViewState::Detail(vs) => match vs {
                DetailViewState::Detail => {
                    self.app_view_state.view_state = ViewState::Detail(DetailViewState::Version);
                },
                DetailViewState::Version => {
                    self.app_view_state.view_state = ViewState::Detail(DetailViewState::Detail);
                },
            },
        }
    }

    /// Wrap the current state in help, or unwrap back to the state help
    /// was opened from.  Help is never nested.
    pub fn toggle_help(&mut self)
        ensures
            same_but_view_state(*old(self), *final(self)),
            toggle_rel(old(self).app_view_state.view_state, final(self).app_view_state.view_state),
    {
        match self.app_view_state.view_state {
            ViewState::Initializing => {},
            ViewState::Help(_) => {
                let current = self.app_view_state.view_state.clone();
                if let ViewState::Help(before) = current {
                    self.app_view_state.view_state = *before;
                }
            },
            ViewState::BucketList | ViewState::ObjectList | ViewState::Detail(_) => {
                let before = self.app_view_state.view_state.clone();
                self.app_view_state.view_state = ViewState::Help(Box::new(before));
            },
        }
    }

    /// Ask for the selected object to be downloaded.
    pub fn download(&mut self)
        ensures
            !(old(self).app_view_state.view_state is Detail) ==> *final(self) == *old(self),
            old(self).app_view_state.view_state is Detail ==> {
                &&& final(self).pending_events@ == old(self).pending_events@.push(
                    AppEventType::DownloadObject,
                )
                &&& final(self).app_view_state.is_loading == true
                &&& final(self).app_objects == old(self).app_objects
                &&& final(self).current_keys == old(self).current_keys
                &&& final(self).app_view_state.view_state == old(self).app_view_state.view_state
                &&& final(self).app_view_state.list_state == old(self).app_view_state.list_state
                &&& final(self).app_view_state.notification == old(self).app_view_state.notification
            },
    {
        match self.app_view_state.view_state {
            ViewState::Initializing
            | ViewState::BucketList
            | ViewState::ObjectList
            | ViewState::Help(_) => {},
            ViewState::Detail(_) => {
                self.pending_events.push(AppEventType::DownloadObject);
                self.app_view_state.is_loading = true;
            },
        }
    }

    /// Show a failure in the notification slot and ask the surrounding
    /// program to append it to the error log.
    pub fn handle_error(&mut self, e: AppError)
        ensures
            final(self).app_view_state.notification == Notification::Error(e.msg),
            final(self).pending_events@ == old(self).pending_events@.push(AppEventType::Error(e)),
            final(self).app_objects == old(self).app_objects,
            final(self).current_keys == old(self).current_keys,
            final(self).app_view_state.view_state == old(self).app_view_state.view_state,
            final(self).app_view_state.list_state == old(self).app_view_state.list_state,
            final(self).app_view_state.is_loading == old(self).app_view_state.is_loading,
    {
        self.app_view_state.notification = Notification::Error(e.msg.clone());
        self.pending_events.push(AppEventType::Error(e));
    }

    /// Apply the outcome of the initial top-level fetch: seed the cache
    /// at the root path and leave `Initializing`.
    pub fn complete_initialize(&mut self, result: Result<CompleteInitializeResult, AppError>)
        ensures
            final(self).app_view_state.is_loading == false,
            final(self).current_keys == old(self).current_keys,
            final(self).app_view_state.list_state == old(self).app_view_state.list_state,
            result matches Ok(r) ==> {
                &&& final(self).app_objects.items_map() == old(self).app_objects.items_map().insert(
                    Seq::<Seq<char>>::empty(),
                    r.buckets@,
                )
                &&& final(self).app_objects.details_map() == old(self).app_objects.details_map()
                &&& final(self).app_view_state.view_state == ViewState::ObjectList
                &&& final(self).app_view_state.notification == old(self).app_view_state.notification
                &&& final(self).pending_events == old(self).pending_events
            },
            result matches Err(e) ==> {
                &&& final(self).app_objects == old(self).app_objects
                &&& final(self).app_view_state.view_state == old(self).app_view_state.view_state
                &&& final(self).app_view_state.notification == Notification::Error(e.msg)
                &&& final(self).pending_events@ == old(self).pending_events@.push(
                    AppEventType::Error(e),
                )
            },
    {
        match result {
            Ok(CompleteInitializeResult { buckets }) => {
                let root: Vec<String> = Vec::new();
                proof {
                    assert(root.deep_view() =~= Seq::<Seq<char>>::empty());
                }
                self.app_objects.set_items(root, buckets);
                self.app_view_state.view_state = ViewState::ObjectList;
            },
            Err(e) => {
                self.handle_error(e);
            },
        }
        self.app_view_state.is_loading = false;
    }

    /// Apply the outcome of a listing fetch: record it for the current
    /// path.
    pub fn complete_load_objects(&mut self, result: Result<CompleteLoadObjectsResult, AppError>)
        ensures
            final(self).app_view_state.is_loading == false,
            final(self).current_keys == old(self).current_keys,
            final(self).app_view_state.list_state == old(self).app_view_state.list_state,
            final(self).app_view_state.view_state == old(self).app_view_state.view_state,
            result matches Ok(r) ==> {
                &&& final(self).app_objects.items_map() == old(self).app_objects.items_map().insert(
                    old(self).current_path(),
                    r.items@,
                )
                &&& final(self).app_objects.details_map() == old(self).app_objects.details_map()
                &&& final(self).app_view_state.notification == old(self).app_view_state.notification
                &&& final(self).pending_events == old(self).pending_events
            },
            result matches Err(e) ==> {
                &&& final(self).app_objects == old(self).app_objects
                &&& final(self).app_view_state.notification == Notification::Error(e.msg)
                &&& final(self).pending_events@ == old(self).pending_events@.push(
                    AppEventType::Error(e),
                )
            },
    {
        match result {
            Ok(CompleteLoadObjectsResult { items }) => {
                let path = crate::item::clone_path(&self.current_keys);
                self.app_objects.set_items(path, items);
            },
            Err(e) => {
                self.handle_error(e);
            },
        }
        self.app_view_state.is_loading = false;
    }

    /// Apply the outcome of a metadata fetch: record it under its
    /// composite key and show the detail page.
    pub fn complete_load_object(&mut self, result: Result<CompleteLoadObjectResult, AppError>)
        ensures
            final(self).app_view_state.is_loading == false,
            final(self).current_keys == old(self).current_keys,
            final(self).app_view_state.list_state == old(self).app_view_state.list_state,
            result matches Ok(r) ==> {
                &&& final(self).app_objects.details_map() == old(
                    self,
                ).app_objects.details_map().insert(r.map_key@, (r.detail, r.versions@))
                &&& final(self).app_objects.items_map() == old(self).app_objects.items_map()
                &&& final(self).app_view_state.view_state == ViewState::Detail(
                    DetailViewState::Detail,
                )
                &&& final(self).app_view_state.notification == old(self).app_view_state.notification
                &&& final(self).pending_events == old(self).pending_events
            },
            result matches Err(e) ==> {
                &&& final(self).app_objects == old(self).app_objects
                &&& final(self).app_view_state.view_state == old(self).app_view_state.view_state
                &&& final(self).app_view_state.notification == Notification::Error(e.msg)
                &&& final(self).pending_events@ == old(self).pending_events@.push(
                    AppEventType::Error(e),
                )
            },
    {
        match result {
            Ok(CompleteLoadObjectResult { detail, versions, map_key }) => {
                self.app_objects.set_object_details(&map_key, detail, versions);
                self.app_view_state.view_state = ViewState::Detail(DetailViewState::Detail);
            },
            Err(e) => {
                self.handle_error(e);
            },
        }
        self.app_view_state.is_loading = false;
    }

    /// Apply the outcome of a finished download: show where the bytes
    /// were written, or the failure.
    pub fn complete_download_object(&mut self, result: Result<CompleteDownloadObjectResult,
        AppError>)
        ensures
            final(self).app_view_state.is_loading == false,
            final(self).current_keys == old(self).current_keys,
            final(self).app_view_state.list_state == old(self).app_view_state.list_state,
            final(self).app_view_state.view_state == old(self).app_view_state.view_state,
            final(self).app_objects == old(self).app_objects,
            result matches Ok(r) ==> {
                &&& final(self).app_view_state.notification matches Notification::Info(m) && m@
                    == "Download completed successfully: "@ + r.path@
                &&& final(self).pending_events == old(self).pending_events
            },
            result matches Err(e) ==> {
                &&& final(self).app_view_state.notification == Notification::Error(e.msg)
                &&& final(self).pending_events@ == old(self).pending_events@.push(
                    AppEventType::Error(e),
                )
            },
    {
        match result {
            Ok(CompleteDownloadObjectResult { path }) => {
                let mut msg = String::from_str("Download completed successfully: ");
                msg.append(path.as_str());
                self.app_view_state.notification = Notification::Info(msg);
            },
            Err(e) => {
                self.handle_error(e);
            },
        }
        self.app_view_state.is_loading = false;
    }

    /// The argument snapshot for a background listing fetch of the
    /// current path.
    pub fn load_objects(&self) -> (r: LoadObjectsRequest)
        requires
            self.current_path().len() >= 1,
        ensures
            r.bucket@ == self.current_path()[0],
            r.prefix@ == prefix_of(self.current_path()),
    {
        let bucket = self.current_bucket();
        let prefix = self.current_object_prefix();
        LoadObjectsRequest { bucket, prefix }
    }

    /// The argument snapshot for a background metadata fetch of the
    /// selected file, when a file is selected.
    pub fn load_object(&self) -> (r: Option<LoadObjectRequest>)
        requires
            self.selected_is_file() ==> self.current_path().len() >= 1,
        ensures
            !self.selected_is_file() ==> r is None,
            self.selected_is_file() ==> match (r, self.spec_selected_item()) {
                (Option::Some(q), Option::Some(item)) => {
                    &&& q.bucket@ == self.current_path()[0]
                    &&& q.name@ == item.spec_name()
                    &&& q.key@ == prefix_of(self.current_path()) + item.spec_name()
                    &&& item matches Item::File { size_byte, .. } && q.size_byte == size_byte
                    &&& q.map_key@ == self.spec_selected_key()
                },
                _ => false,
            },
    {
        match self.get_current_selected() {
            Some(item) => match item {
                Item::File { name, size_byte, .. } => {
                    let name = name.clone();
                    let size_byte = *size_byte;
                    let bucket = self.current_bucket();
                    let prefix = self.current_object_prefix();
                    let mut key = prefix.clone();
                    key.append(name.as_str());
                    let map_key = self.object_detail_map_key(&bucket, &prefix, &name);
                    Some(LoadObjectRequest { bucket, key, name, size_byte, map_key })
                },
                _ => None,
            },
            None => None,
        }
    }

    /// The argument snapshot for a background download of the selected
    /// file, when a file is selected.
    pub fn download_object(&self) -> (r: Option<DownloadObjectRequest>)
        requires
            self.selected_is_file() ==> self.current_path().len() >= 1,
        ensures
            !self.selected_is_file() ==> r is None,
            self.selected_is_file() ==> match (r, self.spec_selected_item()) {
                (Option::Some(q), Option::Some(item)) => {
                    &&& q.bucket@ == self.current_path()[0]
                    &&& q.name@ == item.spec_name()
                    &&& q.key@ == prefix_of(self.current_path()) + item.spec_name()
                },
                _ => false,
            },
    {
        match self.get_current_selected() {
            Some(item) => match item {
                Item::File { name, .. } => {
                    let name = name.clone();
                    let bucket = self.current_bucket();
                    let prefix = self.current_object_prefix();
                    let mut key = prefix;
                    key.append(name.as_str());
                    Some(DownloadObjectRequest { bucket, key, name })
                },
                _ => None,
            },
            None => None,
        }
    }

    /// Which management-console page the current state points at; records
    /// a failure when the detail page has lost its selection.
    pub fn open_management_console(&mut self) -> (r: Option<ConsoleTarget>)
        requires
            old(self).app_view_state.view_state is Detail && old(self).selected_is_file() ==> old(
                self,
            ).current_path().len() >= 1,
        ensures
            old(self).app_view_state.view_state is Initializing || old(
                self,
            ).app_view_state.view_state is Help ==> *final(self) == *old(self) && r is None,
            old(self).in_list_view() ==> *final(self) == *old(self),
            old(self).in_list_view() && old(self).current_path().len() == 0 ==> r == Some(
                ConsoleTarget::Buckets,
            ),
            old(self).in_list_view() && old(self).current_path().len() >= 1 ==> (r matches Some(t)
                && t matches ConsoleTarget::List { bucket, prefix } && bucket@ == old(
                self,
            ).current_path()[0] && prefix@ == prefix_of(old(self).current_path())),
            old(self).app_view_state.view_state is Detail && old(self).selected_is_file() ==> *final(self) == *old(self),
            old(self).app_view_state.view_state is Detail && old(self).selected_is_file() ==> (r
                matches Some(t) && t matches ConsoleTarget::Object {
                bucket,
                prefix,
                name,
            } && bucket@ == old(self).current_path()[0] && prefix@ == prefix_of(
                old(self).current_path(),
            ) && name@ == spec_selected_name(*old(self))),
            old(self).app_view_state.view_state is Detail && !old(self).selected_is_file() ==> r
                is None && console_error_recorded(*old(self), *final(self)),
    {
        match self.app_view_state.view_state {
            ViewState::Initializing | ViewState::Help(_) => None,
            ViewState::BucketList | ViewState::ObjectList => {
                if self.current_keys.len() == 0 {
                    Some(ConsoleTarget::Buckets)
                } else {
                    let bucket = self.current_bucket();
                    let prefix = self.current_object_prefix();
                    Some(ConsoleTarget::List { bucket, prefix })
                }
            },
            ViewState::Detail(_) => {
                let found: Option<String> = match self.get_current_selected() {
                    Some(item) => match item {
                        Item::File { name, .. } => Some(name.clone()),
                        _ => None,
                    },
                    None => None,
                };
                match found {
                    Some(name) => {
                        let bucket = self.current_bucket();
                        let prefix = self.current_object_prefix();
                        Some(ConsoleTarget::Object { bucket, prefix, name })
                    },
                    None => {
                        self.handle_error(
                            AppError::new(
                                String::from_str("Failed to get current selected item"),
                            ),
                        );
                        proof {
                            assert(self.pending_events@.drop_last() =~= old(
                                self,
                            ).pending_events@);
                        }
                        None
                    },
                }
            },
        }
    }

    /// The cached metadata of the selected file, when a file is selected
    /// and its metadata was loaded.
    pub fn get_current_file_detail(&self) -> (r: Option<&FileDetail>)
        requires
            self.selected_is_file() ==> self.current_path().len() >= 1,
        ensures
            !self.selected_is_file() ==> r is None,
            self.selected_is_file() ==> match r {
                Some(d) => self.app_objects.details_map().contains_key(self.spec_selected_key())
                    && *d == self.app_objects.details_map()[self.spec_selected_key()].0,
                None => !self.app_objects.details_map().contains_key(self.spec_selected_key()),
            },
    {
        match self.get_current_selected() {
            Some(item) => match item {
                Item::File { name, .. } => {
                    let bucket = self.current_bucket();
                    let prefix = self.current_object_prefix();
                    let key = self.object_detail_map_key(&bucket, &prefix, name);
                    self.app_objects.get_object_detail(&key)
                },
                _ => None,
            },
            None => None,
        }
    }

    /// The cached version history of the selected file, when a file is
    /// selected and its metadata was loaded.
    pub fn get_current_file_versions(&self) -> (r: Option<&Vec<FileVersion>>)
        requires
            self.selected_is_file() ==> self.current_path().len() >= 1,
        ensures
            !self.selected_is_file() ==> r is None,
            self.selected_is_file() ==> match r {
                Some(v) => self.app_objects.details_map().contains_key(self.spec_selected_key())
                    && v@ == self.app_objects.details_map()[self.spec_selected_key()].1,
                None => !self.app_objects.details_map().contains_key(self.spec_selected_key()),
            },
    {
        match self.get_current_selected() {
            Some(item) => match item {
                Item::File { name, .. } => {
                    let bucket = self.current_bucket();
                    let prefix = self.current_object_prefix();
                    let key = self.object_detail_map_key(&bucket, &prefix, name);
                    self.app_objects.get_object_versions(&key)
                },
                _ => None,
            },
            None => None,
        }
    }

    /// Hand the queued requests to the surrounding program, oldest first,
    /// and leave the queue empty.
    pub fn take_pending_events(&mut self) -> (r: Vec<AppEventType>)
        ensures
            r@ == old(self).pending_events@,
            final(self).pending_events@ == Seq::<AppEventType>::empty(),
            final(self).app_objects == old(self).app_objects,
            final(self).current_keys == old(self).current_keys,
            final(self).app_view_state == old(self).app_view_state,
    {
        let mut out: Vec<AppEventType> = Vec::new();
        core::mem::swap(&mut out, &mut self.pending_events);
        out
    }
}

/// The name of the entry under the cursor; empty when there is none.
pub open spec fn spec_selected_name(a: App) -> Seq<char> {
    match a.spec_selected_item() {
        Option::Some(item) => item.spec_name(),
        Option::None => Seq::empty(),
    }
}

/// What `open_management_console` leaves behind when the detail page has
/// no selected file: the failure is shown and queued for the error log.
pub open spec fn console_error_recorded(a: App, b: App) -> bool {
    &&& b.app_view_state.notification matches Notification::Error(m) && m@
        == "Failed to get current selected item"@
    &&& b.pending_events@.len() == a.pending_events@.len() + 1
    &&& b.pending_events@.drop_last() == a.pending_events@
    &&& b.pending_events@.last() matches AppEventType::Error(e) && e.msg@
        == "Failed to get current selected item"@
    &&& b.app_objects == a.app_objects
    &&& b.current_keys == a.current_keys
    &&& b.app_view_state.view_state == a.app_view_state.view_state
    &&& b.app_view_state.list_state == a.app_view_state.list_state
    &&& b.app_view_state.is_loading == a.app_view_state.is_loading
}

} // verus!
