//! Projects and their terminal sessions: each project is tied to a folder
//! and holds sessions as tabs, one of them active; the manager holds the
//! projects, one of them active, and the recently closed ones.

use vstd::prelude::*;
use crate::ids::{ProjectId, SessionId};
use crate::text::{chars_of, split_chars, split_on, str_eq, string_from_chars};

verus! {

/// A terminal session (a tab of a project), without its running shell.
#[derive(Debug)]
pub struct Session {
    /// Unique session ID
    pub id: SessionId,
    /// Display name for the tab
    pub name: String,
    /// Working directory
    pub cwd: String,
    /// Shell command (if custom)
    pub shell: Option<String>,
    /// Creation time, in milliseconds since the Unix epoch
    pub created_at: i64,
    /// Last activity time, in milliseconds since the Unix epoch
    pub last_activity: i64,
    /// Is this session alive?
    pub is_alive: bool,
    /// Session icon (emoji or path)
    pub icon: Option<String>,
    /// Custom environment variables
    pub env: Vec<(String, String)>,
    /// Thumbnail image data (for the sidebar preview)
    pub thumbnail: Option<Vec<u8>>,
}

impl Session {
    /// The thumbnail image data, if any.
    pub closed spec fn thumb(self) -> Option<Seq<u8>> {
        match self.thumbnail {
            Some(t) => Some(t@),
            None => None,
        }
    }

    /// A new session named `name` in `cwd`, not started.
    pub fn new(name: &str, cwd: &str) -> (s: Self)
        ensures
            s.name@ == name@,
            s.cwd@ == cwd@,
            s.shell is None,
            !s.is_alive,
            s.icon is None,
            s.env@.len() == 0,
            s.thumb() is None,
            s.created_at == s.last_activity,
    {
        let now = crate::clock::now_millis();
        Session {
            id: SessionId::new(),
            name: name.to_owned(),
            cwd: cwd.to_owned(),
            shell: None,
            created_at: now,
            last_activity: now,
            is_alive: false,
            icon: None,
            env: Vec::new(),
            thumbnail: None,
        }
    }

    /// Replaces the thumbnail shown in the sidebar.
    pub fn update_thumbnail(&mut self, data: Vec<u8>)
        ensures
            final(self).thumb() == Some(data@),
            final(self).name == old(self).name,
            final(self).cwd == old(self).cwd,
            final(self).last_activity == old(self).last_activity,
    {
        self.thumbnail = Some(data);
    }

    /// The thumbnail, if any.
    pub fn thumbnail(&self) -> (r: Option<&[u8]>)
        ensures
            match r {
                Some(t) => self.thumb() == Some(t@),
                None => self.thumb() is None,
            },
    {
        match &self.thumbnail {
            Some(t) => Some(t.as_slice()),
            None => None,
        }
    }
}

/// Project-specific settings that override global settings.
#[derive(Debug, Clone)]
pub struct ProjectSettings {
    /// Override shell for this project
    pub shell: Option<String>,
    /// Override theme for this project
    pub theme: Option<String>,
    /// Custom environment variables
    pub env: Vec<(String, String)>,
    /// Startup commands to run when opening the project
    pub startup_commands: Vec<String>,
    /// Default terminal size (columns, rows)
    pub default_size: Option<(usize, usize)>,
}

impl Default for ProjectSettings {
    fn default() -> (s: Self)
        ensures
            s.shell is None,
            s.theme is None,
            s.env@.len() == 0,
            s.startup_commands@.len() == 0,
            s.default_size is None,
    {
        ProjectSettings { shell: None, theme: None, env: Vec::new(), startup_commands: Vec::new(), default_size: None }
    }
}

/// The components of a path that name something: its pieces between
/// slashes that are neither empty nor `.`.
pub open spec fn name_parts(path: Seq<char>) -> Seq<Seq<char>> {
    split_on(path, '/').filter(|c: Seq<char>| c.len() > 0 && c != "."@)
}

/// The last component of a path, unless it is `..` or there is none.
pub open spec fn file_name(path: Seq<char>) -> Option<Seq<char>> {
    let parts = name_parts(path);
    if parts.len() == 0 || parts.last() == ".."@ {
        None
    } else {
        Some(parts.last())
    }
}

/// The name of a project in the folder `path`: the folder's name, or
/// "Untitled".
pub open spec fn project_name(path: Seq<char>) -> Seq<char> {
    match file_name(path) {
        Some(n) => n,
        None => "Untitled"@,
    }
}

/// The last component of a path, unless it is `..` or there is none.
pub fn path_file_name(path: &str) -> (r: Option<String>)
    ensures
        match r {
            Some(n) => file_name(path@) == Some(n@),
            None => file_name(path@) is None,
        },
{
    let v = chars_of(path);
    let pieces = split_chars(v.as_slice(), '/');
    let ghost pred = |c: Seq<char>| c.len() > 0 && c != "."@;
    let ghost sp = split_on(path@, '/');
    let mut last: Option<usize> = None;
    let mut i: usize = 0;
    while i < pieces.len()
        invariant
            i <= pieces@.len(),
            pieces@.len() == sp.len(),
            sp == split_on(path@, '/'),
            forall|k: int| 0 <= k < pieces@.len() ==> #[trigger] pieces@[k]@ == sp[k],
            pred == (|c: Seq<char>| c.len() > 0 && c != "."@),
            match last {
                Some(k) => k < i && sp.take(i as int).filter(pred).len() > 0 && sp.take(i as int).filter(pred).last()
                    == sp[k as int],
                None => sp.take(i as int).filter(pred).len() == 0,
            },
        decreases pieces@.len() - i,
    {
        proof {
            reveal(Seq::filter);
            assert(sp.take(i + 1).drop_last() =~= sp.take(i as int));
            assert(sp.take(i + 1).last() == sp[i as int]);
        }
        let p = &pieces[i];
        let is_dot = p.len() == 1 && p[0] == '.';
        proof {
            reveal_strlit(".");
            if is_dot {
                assert(p@ =~= "."@);
            }
            if p@ == "."@ {
                assert(p@.len() == 1 && p@[0] == '.');
            }
        }
        if p.len() > 0 && !is_dot {
            last = Some(i);
        }
        i = i + 1;
    }
    assert(sp.take(pieces@.len() as int) =~= sp);
    match last {
        None => None,
        Some(k) => {
            let p = &pieces[k];
            proof {
                reveal_strlit("..");
            }
            if p.len() == 2 && p[0] == '.' && p[1] == '.' {
                assert(p@ =~= ".."@);
                None
            } else {
                proof {
                    if p@ == ".."@ {
                        assert(p@.len() == 2 && p@[0] == '.' && p@[1] == '.');
                    }
                }
                Some(string_from_chars(p.as_slice()))
            }
        },
    }
}

/// A project: a folder with terminal sessions as tabs.
#[derive(Debug)]
pub struct Project {
    /// Unique project ID
    pub id: ProjectId,
    /// Project name (defaults to the folder name)
    pub name: String,
    /// Root folder path
    pub path: String,
    /// Project icon (emoji or path)
    pub icon: String,
    /// Sessions, in tab order
    pub sessions: Vec<Session>,
    /// Active session index
    pub active_session: usize,
    /// Project-specific settings overrides
    pub settings: ProjectSettings,
    /// Is this project expanded in the sidebar?
    pub expanded: bool,
    /// Last opened time, in milliseconds since the Unix epoch
    pub last_opened: i64,
    /// Sort order in the sidebar
    pub sort_order: i32,
}

/// The names of a list of sessions.
pub open spec fn session_names(s: Seq<Session>) -> Seq<Seq<char>> {
    s.map_values(|x: Session| x.name@)
}

impl Project {
    /// The sessions, in tab order.
    pub closed spec fn tabs(self) -> Seq<Session> {
        self.sessions@
    }

    /// The active session index.
    pub closed spec fn active(self) -> usize {
        self.active_session
    }

    /// A project for the folder `path`, named after it, with no sessions.
    pub fn new(path: &str) -> (p: Self)
        ensures
            p.name@ == project_name(path@),
            p.path@ == path@,
            p.icon@ == "📁"@,
            p.tabs().len() == 0,
            p.active() == 0,
            p.expanded,
            p.sort_order == 0,
    {
        let name = match path_file_name(path) {
            Some(n) => n,
            None => "Untitled".to_owned(),
        };
        Project {
            id: ProjectId::new(),
            name,
            path: path.to_owned(),
            icon: "📁".to_owned(),
            sessions: Vec::new(),
            active_session: 0,
            settings: ProjectSettings::default(),
            expanded: true,
            last_opened: crate::clock::now_millis(),
            sort_order: 0,
        }
    }

    /// Adds a session named `name` in the project's folder as the last tab
    /// and makes it active; the new session.
    pub fn add_session(&mut self, name: &str) -> (s: &mut Session)
        ensures
            s.name@ == name@,
            s.cwd@ == old(self).path@,
            !s.is_alive,
            final(self).tabs() == old(self).tabs().push(*final(s)),
            final(self).active() == old(self).tabs().len(),
            final(self).name == old(self).name,
            final(self).path == old(self).path,
    {
        let session = Session::new(name, self.path.as_str());
        self.sessions.push(session);
        self.active_session = self.sessions.len() - 1;
        let last = self.sessions.len() - 1;
        &mut self.sessions[last]
    }

    /// The sessions, in tab order.
    pub fn sessions(&self) -> (r: &[Session])
        ensures
            r@ == self.tabs(),
    {
        self.sessions.as_slice()
    }

    /// The active session, if the active index holds one.
    pub fn active_session(&self) -> (r: Option<&Session>)
        ensures
            match r {
                Some(s) => self.active() < self.tabs().len() && *s == self.tabs()[self.active() as int],
                None => self.active() >= self.tabs().len(),
            },
    {
        if self.active_session < self.sessions.len() {
            Some(&self.sessions[self.active_session])
        } else {
            None
        }
    }

    /// Makes the session at `index` active, if there is one.
    pub fn set_active(&mut self, index: usize)
        ensures
            final(self).tabs() == old(self).tabs(),
            final(self).active() == if index < old(self).tabs().len() {
                index
            } else {
                old(self).active()
            },
            final(self).name == old(self).name,
            final(self).path == old(self).path,
    {
        if index < self.sessions.len() {
            self.active_session = index;
        }
    }

    /// Closes the session at `index`, if there is one; the active index
    /// moves to the last tab when it no longer points at one.
    pub fn close_session(&mut self, index: usize)
        ensures
            index < old(self).tabs().len() ==> {
                let rest = old(self).tabs().remove(index as int);
                &&& final(self).tabs() == rest
                &&& final(self).active() == if old(self).active() >= rest.len() && rest.len() > 0 {
                    (rest.len() - 1) as usize
                } else {
                    old(self).active()
                }
            },
            index >= old(self).tabs().len() ==> final(self).tabs() == old(self).tabs() && final(self).active()
                == old(self).active(),
            final(self).name == old(self).name,
            final(self).path == old(self).path,
    {
        if index < self.sessions.len() {
            self.sessions.remove(index);
            if self.active_session >= self.sessions.len() && self.sessions.len() > 0 {
                self.active_session = self.sessions.len() - 1;
            }
        }
    }

    /// The number of sessions.
    pub fn session_count(&self) -> (n: usize)
        ensures
            n == self.tabs().len(),
    {
        self.sessions.len()
    }
}

/// An entry of the quick switcher: a session of a project.
#[derive(Debug, Clone)]
pub struct QuickSwitchItem {
    pub project_index: usize,
    pub session_index: usize,
    pub project_name: String,
    pub session_name: String,
    pub path: String,
    /// Last activity of the session, in milliseconds since the Unix epoch
    pub last_activity: i64,
}

/// The items of the quick switcher before sorting: every session of every
/// project, projects in order, sessions in tab order.
pub open spec fn switch_items(projects: Seq<Project>) -> Seq<(usize, usize, Seq<char>, Seq<char>, Seq<char>, i64)>
    decreases projects.len(),
{
    if projects.len() == 0 {
        Seq::empty()
    } else {
        let p = projects.last();
        let k = (projects.len() - 1) as usize;
        switch_items(projects.drop_last()) + Seq::new(
            p.tabs().len(),
            |j: int| (k, j as usize, p.name@, p.tabs()[j].name@, p.path@, p.tabs()[j].last_activity),
        )
    }
}

/// Where `x` goes among `s`, sorted most recent first: before the first
/// item less recent than it.
pub open spec fn recency_point(s: Seq<(usize, usize, Seq<char>, Seq<char>, Seq<char>, i64)>, x: (usize, usize, Seq<char>, Seq<char>, Seq<char>, i64)) -> nat
    decreases s.len(),
{
    if s.len() == 0 || s[0].5 < x.5 {
        0
    } else {
        1 + recency_point(s.drop_first(), x)
    }
}

/// `s` sorted most recent first, items of equal recency keeping their
/// order (a stable sort).
pub open spec fn by_recency(s: Seq<(usize, usize, Seq<char>, Seq<char>, Seq<char>, i64)>) -> Seq<(usize, usize, Seq<char>, Seq<char>, Seq<char>, i64)>
    decreases s.len(),
{
    if s.len() == 0 {
        s
    } else {
        let t = by_recency(s.drop_last());
        t.insert(recency_point(t, s.last()) as int, s.last())
    }
}

proof fn lemma_recency_point(
    s: Seq<(usize, usize, Seq<char>, Seq<char>, Seq<char>, i64)>,
    x: (usize, usize, Seq<char>, Seq<char>, Seq<char>, i64),
    p: int,
)
    requires
        0 <= p <= s.len(),
        forall|i: int| 0 <= i < p ==> !((#[trigger] s[i]).5 < x.5),
        p < s.len() ==> s[p].5 < x.5,
    ensures
        recency_point(s, x) == p,
    decreases s.len(),
{
    if p > 0 {
        assert forall|i: int| 0 <= i < p - 1 implies !((#[trigger] s.drop_first()[i]).5 < x.5) by {
            assert(s.drop_first()[i] == s[i + 1]);
        }
        lemma_recency_point(s.drop_first(), x, p - 1);
    }
}

/// The ten most recent of the closed projects `closed`, oldest first.
pub open spec fn recently_closed(closed: Seq<Project>) -> Seq<Project> {
    if closed.len() > 10 {
        closed.skip(closed.len() - 10)
    } else {
        closed
    }
}

/// At most ten closed projects are remembered, and the project closed last
/// is the one that reopening brings back.
pub proof fn law_close_then_reopen(closed: Seq<Project>, project: Project)
    ensures
        recently_closed(closed.push(project)).len() <= 10,
        recently_closed(closed.push(project)).len() > 0,
        recently_closed(closed.push(project)).last() == project,
{
}

/// The view of a quick switcher item.
pub open spec fn item_view(i: QuickSwitchItem) -> (usize, usize, Seq<char>, Seq<char>, Seq<char>, i64) {
    (i.project_index, i.session_index, i.project_name@, i.session_name@, i.path@, i.last_activity)
}

/// A copy of a quick switcher item.
fn copy_item(i: &QuickSwitchItem) -> (r: QuickSwitchItem)
    ensures
        item_view(r) == item_view(*i),
{
    QuickSwitchItem {
        project_index: i.project_index,
        session_index: i.session_index,
        project_name: i.project_name.clone(),
        session_name: i.session_name.clone(),
        path: i.path.clone(),
        last_activity: i.last_activity,
    }
}

/// The projects, one of them active, and the recently closed ones.
pub struct SessionManager {
    projects: Vec<Project>,
    active_project: usize,
    recently_closed: Vec<Project>,
    config_dir: String,
}

impl SessionManager {
    /// The open projects, in order.
    pub closed spec fn open(self) -> Seq<Project> {
        self.projects@
    }

    /// The active project index.
    pub closed spec fn active(self) -> usize {
        self.active_project
    }

    /// The recently closed projects, oldest first.
    pub closed spec fn closed_list(self) -> Seq<Project> {
        self.recently_closed@
    }

    /// The directory projects are saved in.
    pub closed spec fn dir(self) -> Seq<char> {
        self.config_dir@
    }

    /// A manager with no projects, saving in `config_dir`.
    pub fn new(config_dir: &str) -> (m: Self)
        ensures
            m.open().len() == 0,
            m.active() == 0,
            m.closed_list().len() == 0,
            m.dir() == config_dir@,
    {
        SessionManager {
            projects: Vec::new(),
            active_project: 0,
            recently_closed: Vec::new(),
            config_dir: config_dir.to_owned(),
        }
    }

    /// The directory projects are saved in.
    pub fn config_dir(&self) -> (d: &str)
        ensures
            d@ == self.dir(),
    {
        self.config_dir.as_str()
    }

    /// Replaces the open projects with saved ones; none is active but the
    /// first.
    pub fn set_projects(&mut self, projects: Vec<Project>)
        ensures
            final(self).open() == projects@,
            final(self).active() == 0,
            final(self).closed_list() == old(self).closed_list(),
            final(self).dir() == old(self).dir(),
    {
        self.projects = projects;
        self.active_project = 0;
    }

    /// Makes the project for the folder `path` active, opening a new one if
    /// none is open; the project.
    pub fn open_project(&mut self, path: &str) -> (p: &mut Project)
        ensures
            final(self).closed_list() == old(self).closed_list(),
            final(self).dir() == old(self).dir(),
            p.path@ == path@,
            (exists|i: int| 0 <= i < old(self).open().len() && (#[trigger] old(self).open()[i]).path@ == path@) ==> {
                let i = final(self).active() as int;
                &&& 0 <= i < old(self).open().len()
                &&& old(self).open()[i].path@ == path@
                &&& forall|j: int| 0 <= j < i ==> (#[trigger] old(self).open()[j]).path@ != path@
                &&& final(self).open() == old(self).open().update(i, *final(p))
                &&& p.name == old(self).open()[i].name
                &&& p.tabs() == old(self).open()[i].tabs()
            },
            !(exists|i: int| 0 <= i < old(self).open().len() && (#[trigger] old(self).open()[i]).path@ == path@) ==> {
                &&& final(self).open() == old(self).open().push(*final(p))
                &&& final(self).active() == old(self).open().len()
                &&& p.name@ == project_name(path@)
                &&& p.tabs().len() == 0
            },
    {
        let mut i: usize = 0;
        while i < self.projects.len()
            invariant
                i <= self.projects@.len(),
                self.projects@ == old(self).projects@,
                self.recently_closed@ == old(self).recently_closed@,
                self.config_dir == old(self).config_dir,
                forall|j: int| 0 <= j < i ==> (#[trigger] self.projects@[j]).path@ != path@,
            decreases self.projects@.len() - i,
        {
            if str_eq(self.projects[i].path.as_str(), path) {
                self.active_project = i;
                let now = crate::clock::now_millis();
                let p = &mut self.projects[i];
                p.last_opened = now;
                return p;
            }
            i = i + 1;
        }
        let project = Project::new(path);
        self.projects.push(project);
        self.active_project = self.projects.len() - 1;
        let k = self.active_project;
        &mut self.projects[k]
    }

    /// The open projects, in order.
    pub fn projects(&self) -> (r: &[Project])
        ensures
            r@ == self.open(),
    {
        self.projects.as_slice()
    }

    /// The active project, if the active index holds one.
    pub fn active_project(&self) -> (r: Option<&Project>)
        ensures
            match r {
                Some(p) => self.active() < self.open().len() && *p == self.open()[self.active() as int],
                None => self.active() >= self.open().len(),
            },
    {
        if self.active_project < self.projects.len() {
            Some(&self.projects[self.active_project])
        } else {
            None
        }
    }

    /// The active project, to change, if the active index holds one.
    pub fn active_project_mut(&mut self) -> (r: Option<&mut Project>)
        ensures
            final(self).active() == old(self).active(),
            final(self).closed_list() == old(self).closed_list(),
            match r {
                Some(p) => old(self).active() < old(self).open().len() && *p == old(self).open()[old(
                    self,
                ).active() as int] && final(self).open() == old(self).open().update(
                    old(self).active() as int,
                    *final(p),
                ),
                None => old(self).active() >= old(self).open().len() && final(self).open() == old(self).open(),
            },
    {
        if self.active_project < self.projects.len() {
            let k = self.active_project;
            Some(&mut self.projects[k])
        } else {
            None
        }
    }

    /// Makes the project at `index` active, if there is one.
    pub fn set_active_project(&mut self, index: usize)
        ensures
            final(self).open() == old(self).open(),
            final(self).closed_list() == old(self).closed_list(),
            final(self).active() == if index < old(self).open().len() {
                index
            } else {
                old(self).active()
            },
    {
        if index < self.projects.len() {
            self.active_project = index;
        }
    }

    /// Closes the project at `index`, if there is one, keeping it among the
    /// ten most recently closed; the active index moves to the last project
    /// when it no longer points at one.
    pub fn close_project(&mut self, index: usize)
        ensures
            final(self).dir() == old(self).dir(),
            index < old(self).open().len() ==> {
                let rest = old(self).open().remove(index as int);
                let closed = old(self).closed_list().push(old(self).open()[index as int]);
                &&& final(self).open() == rest
                &&& final(self).closed_list() == recently_closed(closed)
                &&& final(self).active() == if old(self).active() >= rest.len() && rest.len() > 0 {
                    (rest.len() - 1) as usize
                } else {
                    old(self).active()
                }
            },
            index >= old(self).open().len() ==> final(self).open() == old(self).open() && final(self).active()
                == old(self).active() && final(self).closed_list() == old(self).closed_list(),
    {
        if index < self.projects.len() {
            let ghost closed = self.recently_closed@.push(self.projects@[index as int]);
            let project = self.projects.remove(index);
            self.recently_closed.push(project);
            assert(self.recently_closed@ =~= closed.skip(0));
            while self.recently_closed.len() > 10
                invariant
                    self.projects@ == old(self).projects@.remove(index as int),
                    self.active_project == old(self).active_project,
                    self.config_dir == old(self).config_dir,
                    self.recently_closed@.len() <= closed.len(),
                    self.recently_closed@ == closed.skip(closed.len() - self.recently_closed@.len()),
                    self.recently_closed@.len() >= 10 || self.recently_closed@.len() == closed.len(),
                decreases self.recently_closed@.len(),
            {
                self.recently_closed.remove(0);
                assert(self.recently_closed@ =~= closed.skip(closed.len() - self.recently_closed@.len()));
            }
            if self.active_project >= self.projects.len() && self.projects.len() > 0 {
                self.active_project = self.projects.len() - 1;
            }
        }
    }

    /// Opens again the project closed last, if any, as the active last
    /// project; the project.
    pub fn reopen_last_closed(&mut self) -> (r: Option<&mut Project>)
        ensures
            final(self).dir() == old(self).dir(),
            old(self).closed_list().len() == 0 ==> r is None && final(self).open() == old(self).open()
                && final(self).active() == old(self).active() && final(self).closed_list() == old(
                self,
            ).closed_list(),
            old(self).closed_list().len() > 0 ==> {
                &&& r is Some
                &&& *r->0 == old(self).closed_list().last()
                &&& final(self).closed_list() == old(self).closed_list().drop_last()
                &&& final(self).open() == old(self).open().push(*final(r->0))
                &&& final(self).active() == old(self).open().len()
            },
    {
        match self.recently_closed.pop() {
            Some(project) => {
                self.projects.push(project);
                self.active_project = self.projects.len() - 1;
                let k = self.active_project;
                Some(&mut self.projects[k])
            },
            None => None,
        }
    }

    /// Every session of every project, the most recently active first
    /// (equally recent ones in project and tab order).
    pub fn quick_switch_data(&self) -> (r: Vec<QuickSwitchItem>)
        ensures
            r@.map_values(|i: QuickSwitchItem| item_view(i)) == by_recency(switch_items(self.open())),
    {
        let ghost all = switch_items(self.projects@);
        let mut items: Vec<QuickSwitchItem> = Vec::new();
        let mut pi: usize = 0;
        while pi < self.projects.len()
            invariant
                pi <= self.projects@.len(),
                items@.map_values(|i: QuickSwitchItem| item_view(i)) == switch_items(self.projects@.take(pi as int)),
            decreases self.projects@.len() - pi,
        {
            let project = &self.projects[pi];
            let ghost base = items@.map_values(|i: QuickSwitchItem| item_view(i));
            let ghost p = self.projects@[pi as int];
            let mut si: usize = 0;
            while si < project.sessions.len()
                invariant
                    si <= project.sessions@.len(),
                    *project == p,
                    items@.map_values(|i: QuickSwitchItem| item_view(i)) == base + Seq::new(
                        si as nat,
                        |j: int| (pi, j as usize, p.name@, p.tabs()[j].name@, p.path@, p.tabs()[j].last_activity),
                    ),
                decreases project.sessions@.len() - si,
            {
                let s = &project.sessions[si];
                let item = QuickSwitchItem {
                    project_index: pi,
                    session_index: si,
                    project_name: project.name.clone(),
                    session_name: s.name.clone(),
                    path: project.path.clone(),
                    last_activity: s.last_activity,
                };
                let ghost before = items@;
                let ghost iv0 = item_view(item);
                items.push(item);
                assert(items@.map_values(|i: QuickSwitchItem| item_view(i)) =~= before.map_values(
                    |i: QuickSwitchItem| item_view(i),
                ).push(iv0));
                assert(iv0 == (pi, si, p.name@, p.tabs()[si as int].name@, p.path@, p.tabs()[si as int].last_activity));
                assert(items@.map_values(|i: QuickSwitchItem| item_view(i)) =~= base + Seq::new(
                    (si + 1) as nat,
                    |j: int| (pi, j as usize, p.name@, p.tabs()[j].name@, p.path@, p.tabs()[j].last_activity),
                ));
                si = si + 1;
            }
            proof {
                assert(self.projects@.take(pi + 1).drop_last() =~= self.projects@.take(pi as int));
                assert(self.projects@.take(pi + 1).last() == p);
            }
            pi = pi + 1;
        }
        assert(self.projects@.take(self.projects@.len() as int) =~= self.projects@);
        let mut out: Vec<QuickSwitchItem> = Vec::new();
        let ghost iv = items@.map_values(|i: QuickSwitchItem| item_view(i));
        let mut i: usize = 0;
        while i < items.len()
            invariant
                i <= items@.len(),
                iv == items@.map_values(|i: QuickSwitchItem| item_view(i)),
                out@.map_values(|i: QuickSwitchItem| item_view(i)) == by_recency(iv.take(i as int)),
            decreases items@.len() - i,
        {
            let x = copy_item(&items[i]);
            let ghost sv = out@.map_values(|i: QuickSwitchItem| item_view(i));
            let mut p: usize = 0;
            while p < out.len() && !(out[p].last_activity < x.last_activity)
                invariant
                    p <= out@.len(),
                    sv == out@.map_values(|i: QuickSwitchItem| item_view(i)),
                    forall|k: int| 0 <= k < p ==> !((#[trigger] sv[k]).5 < x.last_activity),
                decreases out@.len() - p,
            {
                p = p + 1;
            }
            proof {
                lemma_recency_point(sv, item_view(x), p as int);
                assert(iv.take(i + 1).drop_last() =~= iv.take(i as int));
            }
            out.insert(p, x);
            assert(out@.map_values(|i: QuickSwitchItem| item_view(i)) =~= sv.insert(p as int, item_view(x)));
            i = i + 1;
        }
        assert(iv.take(items@.len() as int) =~= iv);
        out
    }
}

} // verus!
