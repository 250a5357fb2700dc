//! Application configuration kept between sessions.
//!
//! The configuration is plain data; reading and writing it to disk is the
//! embedding's business.  The rules governing the recent-project list and
//! the stock-footage API key live here, verified.

use vstd::prelude::*;

verus! {

/// Configuration stored between sessions.
#[derive(Clone, Debug)]
pub struct AppConfig {
    /// Path of the last opened project.
    pub last_project: Option<String>,
    /// Recently opened projects, most recent first, at most ten.
    pub recent_projects: Vec<String>,
    /// API key for the stock-footage service.
    pub pexels_api_key: Option<String>,
}

impl Default for AppConfig {
    fn default() -> (r: Self)
        ensures
            r.last_project is None,
            r.recent_projects@ == Seq::<String>::empty(),
            r.pexels_api_key is None,
    {
        AppConfig { last_project: None, recent_projects: Vec::new(), pexels_api_key: None }
    }
}

/// The recent list without any entry equal to `path`, order kept.
pub open spec fn spec_without(recent: Seq<String>, path: Seq<char>) -> Seq<String>
    decreases recent.len(),
{
    if recent.len() == 0 {
        Seq::empty()
    } else {
        spec_without(recent.drop_last(), path) + (if recent.last()@ == path {
            Seq::empty()
        } else {
            seq![recent.last()]
        })
    }
}

/// The recent list after opening `path`: `path` moves to the front, other
/// entries keep their order, and at most ten entries survive.
pub open spec fn spec_recent_after(recent: Seq<String>, path: String) -> Seq<String> {
    let all = seq![path] + spec_without(recent, path@);
    if all.len() > 10 {
        all.take(10)
    } else {
        all
    }
}

impl AppConfig {
    /// Record that a project was opened: it becomes the last project and
    /// moves to the front of the recent list, which keeps at most its ten
    /// most recent entries.  Persisting the change is the caller's business.
    pub fn set_last_project(&mut self, path: String)
        ensures
            final(self).last_project matches Some(p) && p@ == path@,
            final(self).recent_projects@ == spec_recent_after(
                old(self).recent_projects@,
                path,
            ),
            final(self).pexels_api_key == old(self).pexels_api_key,
    {
        let mut recent: Vec<String> = Vec::new();
        recent.push(path.clone());
        let mut i: usize = 0;
        while i < self.recent_projects.len()
            invariant
                i <= self.recent_projects@.len(),
                recent@ == seq![path] + spec_without(
                    self.recent_projects@.take(i as int),
                    path@,
                ),
            decreases self.recent_projects@.len() - i,
        {
            let ghost prefix = self.recent_projects@.take(i as int);
            if !string_eq(&self.recent_projects[i], &path) {
                recent.push(self.recent_projects[i].clone());
            }
            proof {
                assert(self.recent_projects@.take(i + 1 as int).drop_last() =~= prefix);
                assert(self.recent_projects@.take(i + 1 as int).last()
                    == self.recent_projects@[i as int]);
                assert(recent@ =~= seq![path] + spec_without(
                    self.recent_projects@.take(i + 1 as int),
                    path@,
                ));
            }
            i += 1;
        }
        proof {
            assert(self.recent_projects@.take(self.recent_projects@.len() as int)
                =~= self.recent_projects@);
        }
        recent.truncate(10);
        proof {
            let all = seq![path] + spec_without(self.recent_projects@, path@);
            assert(recent@ =~= spec_recent_after(self.recent_projects@, path));
        }
        self.recent_projects = recent;
        self.last_project = Some(path);
    }

    /// Set the stock-footage API key.  Persisting the change is the
    /// caller's business.
    pub fn set_pexels_api_key(&mut self, key: String)
        ensures
            final(self).pexels_api_key matches Some(k) && k == key,
            final(self).last_project == old(self).last_project,
            final(self).recent_projects == old(self).recent_projects,
    {
        self.pexels_api_key = Some(key);
    }

    /// Whether a non-empty stock-footage API key is configured.
    pub fn has_pexels_key(&self) -> (r: bool)
        ensures
            r == (self.pexels_api_key matches Some(k) && k@.len() > 0),
    {
        match &self.pexels_api_key {
            Some(k) => !k.as_str().is_empty(),
            None => false,
        }
    }
}

/// Whether two strings hold the same characters.
fn string_eq(a: &String, b: &String) -> (r: bool)
    ensures
        r == (a@ == b@),
{
    *a == *b
}

} // verus!
