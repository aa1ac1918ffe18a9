use crate::error::Error;
use crate::role_directory::RoleIdLookup;
use vstd::prelude::*;

verus! {

/// Members requested per page: the platform's largest page.
pub const PAGE_LIMIT: u64 = 100;

/// Where a role's member enumeration stands.
pub enum PagerState {
    /// No page has been requested yet.
    Start,
    /// The next page is requested with this cursor.
    At(String),
    /// Enumeration is over.
    Finished,
}

/// Cursor-driven enumeration of the members that hold one role.
pub struct MemberPager {
    pub group_id: u64,
    pub role_id: u64,
    pub state: PagerState,
}

impl MemberPager {
    /// An enumeration that starts at the first page.
    pub fn new(group_id: u64, role_id: u64) -> (r: MemberPager)
        ensures
            r.group_id == group_id,
            r.role_id == role_id,
            r.state is Start,
    {
        MemberPager { group_id, role_id, state: PagerState::Start }
    }

    /// An enumeration of the members of the role named `role_name`, which
    /// fails with `RoleNotFound` where that name was not resolved.
    pub fn for_role(lookup: &RoleIdLookup, group_id: u64, role_name: &String) -> (r: Result<
        MemberPager,
        Error,
    >)
        ensures
            match r {
                Ok(p) => {
                    &&& lookup.id_of(role_name@) == Some(p.role_id)
                    &&& p.group_id == group_id
                    &&& p.state is Start
                },
                Err(e) => lookup.id_of(role_name@) is None && match e {
                    Error::RoleNotFound(n) => n@ == role_name@,
                    _ => false,
                },
            },
    {
        match lookup.get(role_name) {
            Some(role_id) => Ok(MemberPager::new(group_id, role_id)),
            None => Err(Error::RoleNotFound(role_name.clone())),
        }
    }

    /// Whether enumeration is over.
    pub fn is_finished(&self) -> (r: bool)
        ensures
            r == (self.state is Finished),
    {
        match self.state {
            PagerState::Finished => true,
            _ => false,
        }
    }

    /// The cursor to send with the next page request: none for the first page.
    pub fn cursor(&self) -> (r: Option<String>)
        ensures
            match self.state {
                PagerState::At(c) => r == Some(c),
                _ => r is None,
            },
    {
        match &self.state {
            PagerState::At(c) => Some(c.clone()),
            _ => None,
        }
    }

    /// Takes in one page response and hands back the member ids to process.
    /// An empty page ends enumeration whatever cursor came with it; a page
    /// without a next cursor ends it after its members.
    pub fn accept_page(&mut self, member_ids: Vec<u64>, next_cursor: Option<String>) -> (r: Vec<
        u64,
    >)
        ensures
            final(self).group_id == old(self).group_id,
            final(self).role_id == old(self).role_id,
            old(self).state is Finished ==> r@.len() == 0 && final(self).state is Finished,
            !(old(self).state is Finished) && member_ids@.len() == 0 ==> r@.len() == 0
                && final(self).state is Finished,
            !(old(self).state is Finished) && member_ids@.len() > 0 ==> {
                &&& r@ == member_ids@
                &&& match next_cursor {
                    Some(c) => final(self).state == PagerState::At(c),
                    None => final(self).state is Finished,
                }
            },
    {
        if self.is_finished() || member_ids.len() == 0 {
            self.state = PagerState::Finished;
            return Vec::new();
        }
        self.state = match next_cursor {
            Some(c) => PagerState::At(c),
            None => PagerState::Finished,
        };
        member_ids
    }
}

} // verus!
