//! The enumerations of the domain model and their wire names
//! (snake_case, as stored in the database and printed in JSON).
use vstd::prelude::*;
use crate::text::str_eq;

verus! {

/// Lifecycle of an epic.
#[derive(Clone, Copy, Debug, PartialEq, Eq, Structural)]
pub enum EpicStatus {
    Active,
    Completed,
    Cancelled,
}

impl EpicStatus {
    /// The wire name of the value.
    pub open spec fn name(self) -> Seq<char> {
        match self {
            EpicStatus::Active => "active"@,
            EpicStatus::Completed => "completed"@,
            EpicStatus::Cancelled => "cancelled"@,
        }
    }

    /// The value whose wire name is `s`, if any.
    pub open spec fn from_name(s: Seq<char>) -> Option<Self> {
        if s == "active"@ {
            Some(EpicStatus::Active)
        } else if s == "completed"@ {
            Some(EpicStatus::Completed)
        } else if s == "cancelled"@ {
            Some(EpicStatus::Cancelled)
        } else {
            None
        }
    }

    /// The wire name of the value.
    pub fn as_str(&self) -> (r: &'static str)
        ensures
            r@ == self.name(),
    {
        match self {
            EpicStatus::Active => "active",
            EpicStatus::Completed => "completed",
            EpicStatus::Cancelled => "cancelled",
        }
    }

    /// Reads a wire name back; `None` for any other text.
    pub fn parse(s: &str) -> (r: Option<Self>)
        ensures
            r == Self::from_name(s@),
    {
        if str_eq(s, "active") {
            Some(EpicStatus::Active)
        } else if str_eq(s, "completed") {
            Some(EpicStatus::Completed)
        } else if str_eq(s, "cancelled") {
            Some(EpicStatus::Cancelled)
        } else {
            None
        }
    }

    /// Reading back the wire name of a value gives the value again, and no two
    /// values share a wire name.
    pub proof fn lemma_name_round_trip(self)
        ensures
            Self::from_name(self.name()) == Some(self),
    {
        reveal_strlit("active");
        reveal_strlit("completed");
        reveal_strlit("cancelled");
        assert("active"@.len() != "completed"@.len());
        assert("active"@ != "completed"@);
        assert("active"@.len() != "cancelled"@.len());
        assert("active"@ != "cancelled"@);
        assert("completed"@[1] != "cancelled"@[1]);
        assert("completed"@ != "cancelled"@);
        match self {
            EpicStatus::Active => { assert(Self::from_name("active"@) == Some(EpicStatus::Active)); }
            EpicStatus::Completed => { assert(Self::from_name("completed"@) == Some(EpicStatus::Completed)); }
            EpicStatus::Cancelled => { assert(Self::from_name("cancelled"@) == Some(EpicStatus::Cancelled)); }
        }
    }

    /// A text that is read back as a value is that value's wire name.
    pub proof fn lemma_from_name_inverse(s: Seq<char>)
        ensures
            Self::from_name(s) matches Some(v) ==> v.name() == s,
    {
    }
}

/// Kind of entity a history row refers to.
#[derive(Clone, Copy, Debug, PartialEq, Eq, Structural)]
pub enum EntityType {
    Sprint,
    Epic,
    Issue,
    Task,
    Note,
    Mission,
}

impl EntityType {
    /// The wire name of the value.
    pub open spec fn name(self) -> Seq<char> {
        match self {
            EntityType::Sprint => "sprint"@,
            EntityType::Epic => "epic"@,
            EntityType::Issue => "issue"@,
            EntityType::Task => "task"@,
            EntityType::Note => "note"@,
            EntityType::Mission => "mission"@,
        }
    }

    /// The value whose wire name is `s`, if any.
    pub open spec fn from_name(s: Seq<char>) -> Option<Self> {
        if s == "sprint"@ {
            Some(EntityType::Sprint)
        } else if s == "epic"@ {
            Some(EntityType::Epic)
        } else if s == "issue"@ {
            Some(EntityType::Issue)
        } else if s == "task"@ {
            Some(EntityType::Task)
        } else if s == "note"@ {
            Some(EntityType::Note)
        } else if s == "mission"@ {
            Some(EntityType::Mission)
        } else {
            None
        }
    }

    /// The wire name of the value.
    pub fn as_str(&self) -> (r: &'static str)
        ensures
            r@ == self.name(),
    {
        match self {
            EntityType::Sprint => "sprint",
            EntityType::Epic => "epic",
            EntityType::Issue => "issue",
            EntityType::Task => "task",
            EntityType::Note => "note",
            EntityType::Mission => "mission",
        }
    }

    /// Reads a wire name back; `None` for any other text.
    pub fn parse(s: &str) -> (r: Option<Self>)
        ensures
            r == Self::from_name(s@),
    {
        if str_eq(s, "sprint") {
            Some(EntityType::Sprint)
        } else if str_eq(s, "epic") {
            Some(EntityType::Epic)
        } else if str_eq(s, "issue") {
            Some(EntityType::Issue)
        } else if str_eq(s, "task") {
            Some(EntityType::Task)
        } else if str_eq(s, "note") {
            Some(EntityType::Note)
        } else if str_eq(s, "mission") {
            Some(EntityType::Mission)
        } else {
            None
        }
    }

    /// Reading back the wire name of a value gives the value again, and no two
    /// values share a wire name.
    pub proof fn lemma_name_round_trip(self)
        ensures
            Self::from_name(self.name()) == Some(self),
    {
        reveal_strlit("sprint");
        reveal_strlit("epic");
        reveal_strlit("issue");
        reveal_strlit("task");
        reveal_strlit("note");
        reveal_strlit("mission");
        assert("sprint"@.len() != "epic"@.len());
        assert("sprint"@ != "epic"@);
        assert("sprint"@.len() != "issue"@.len());
        assert("sprint"@ != "issue"@);
        assert("sprint"@.len() != "task"@.len());
        assert("sprint"@ != "task"@);
        assert("sprint"@.len() != "note"@.len());
        assert("sprint"@ != "note"@);
        assert("sprint"@.len() != "mission"@.len());
        assert("sprint"@ != "mission"@);
        assert("epic"@.len() != "issue"@.len());
        assert("epic"@ != "issue"@);
        assert("epic"@[0] != "task"@[0]);
        assert("epic"@ != "task"@);
        assert("epic"@[0] != "note"@[0]);
        assert("epic"@ != "note"@);
        assert("epic"@.len() != "mission"@.len());
        assert("epic"@ != "mission"@);
        assert("issue"@.len() != "task"@.len());
        assert("issue"@ != "task"@);
        assert("issue"@.len() != "note"@.len());
        assert("issue"@ != "note"@);
        assert("issue"@.len() != "mission"@.len());
        assert("issue"@ != "mission"@);
        assert("task"@[0] != "note"@[0]);
        assert("task"@ != "note"@);
        assert("task"@.len() != "mission"@.len());
        assert("task"@ != "mission"@);
        assert("note"@.len() != "mission"@.len());
        assert("note"@ != "mission"@);
        match self {
            EntityType::Sprint => { assert(Self::from_name("sprint"@) == Some(EntityType::Sprint)); }
            EntityType::Epic => { assert(Self::from_name("epic"@) == Some(EntityType::Epic)); }
            EntityType::Issue => { assert(Self::from_name("issue"@) == Some(EntityType::Issue)); }
            EntityType::Task => { assert(Self::from_name("task"@) == Some(EntityType::Task)); }
            EntityType::Note => { assert(Self::from_name("note"@) == Some(EntityType::Note)); }
            EntityType::Mission => { assert(Self::from_name("mission"@) == Some(EntityType::Mission)); }
        }
    }

    /// A text that is read back as a value is that value's wire name.
    pub proof fn lemma_from_name_inverse(s: Seq<char>)
        ensures
            Self::from_name(s) matches Some(v) ==> v.name() == s,
    {
    }
}

/// Kanban column of an issue.
#[derive(Clone, Copy, Debug, PartialEq, Eq, Structural)]
pub enum IssueStatus {
    Required,
    Ready,
    Working,
    Demo,
    Finished,
    Cancelled,
}

impl IssueStatus {
    /// The wire name of the value.
    pub open spec fn name(self) -> Seq<char> {
        match self {
            IssueStatus::Required => "required"@,
            IssueStatus::Ready => "ready"@,
            IssueStatus::Working => "working"@,
            IssueStatus::Demo => "demo"@,
            IssueStatus::Finished => "finished"@,
            IssueStatus::Cancelled => "cancelled"@,
        }
    }

    /// The value whose wire name is `s`, if any.
    pub open spec fn from_name(s: Seq<char>) -> Option<Self> {
        if s == "required"@ {
            Some(IssueStatus::Required)
        } else if s == "ready"@ {
            Some(IssueStatus::Ready)
        } else if s == "working"@ {
            Some(IssueStatus::Working)
        } else if s == "demo"@ {
            Some(IssueStatus::Demo)
        } else if s == "finished"@ {
            Some(IssueStatus::Finished)
        } else if s == "cancelled"@ {
            Some(IssueStatus::Cancelled)
        } else {
            None
        }
    }

    /// The wire name of the value.
    pub fn as_str(&self) -> (r: &'static str)
        ensures
            r@ == self.name(),
    {
        match self {
            IssueStatus::Required => "required",
            IssueStatus::Ready => "ready",
            IssueStatus::Working => "working",
            IssueStatus::Demo => "demo",
            IssueStatus::Finished => "finished",
            IssueStatus::Cancelled => "cancelled",
        }
    }

    /// Reads a wire name back; `None` for any other text.
    pub fn parse(s: &str) -> (r: Option<Self>)
        ensures
            r == Self::from_name(s@),
    {
        if str_eq(s, "required") {
            Some(IssueStatus::Required)
        } else if str_eq(s, "ready") {
            Some(IssueStatus::Ready)
        } else if str_eq(s, "working") {
            Some(IssueStatus::Working)
        } else if str_eq(s, "demo") {
            Some(IssueStatus::Demo)
        } else if str_eq(s, "finished") {
            Some(IssueStatus::Finished)
        } else if str_eq(s, "cancelled") {
            Some(IssueStatus::Cancelled)
        } else {
            None
        }
    }

    /// Reading back the wire name of a value gives the value again, and no two
    /// values share a wire name.
    pub proof fn lemma_name_round_trip(self)
        ensures
            Self::from_name(self.name()) == Some(self),
    {
        reveal_strlit("required");
        reveal_strlit("ready");
        reveal_strlit("working");
        reveal_strlit("demo");
        reveal_strlit("finished");
        reveal_strlit("cancelled");
        assert("required"@.len() != "ready"@.len());
        assert("required"@ != "ready"@);
        assert("required"@.len() != "working"@.len());
        assert("required"@ != "working"@);
        assert("required"@.len() != "demo"@.len());
        assert("required"@ != "demo"@);
        assert("required"@[0] != "finished"@[0]);
        assert("required"@ != "finished"@);
        assert("required"@.len() != "cancelled"@.len());
        assert("required"@ != "cancelled"@);
        assert("ready"@.len() != "working"@.len());
        assert("ready"@ != "working"@);
        assert("ready"@.len() != "demo"@.len());
        assert("ready"@ != "demo"@);
        assert("ready"@.len() != "finished"@.len());
        assert("ready"@ != "finished"@);
        assert("ready"@.len() != "cancelled"@.len());
        assert("ready"@ != "cancelled"@);
        assert("working"@.len() != "demo"@.len());
        assert("working"@ != "demo"@);
        assert("working"@.len() != "finished"@.len());
        assert("working"@ != "finished"@);
        assert("working"@.len() != "cancelled"@.len());
        assert("working"@ != "cancelled"@);
        assert("demo"@.len() != "finished"@.len());
        assert("demo"@ != "finished"@);
        assert("demo"@.len() != "cancelled"@.len());
        assert("demo"@ != "cancelled"@);
        assert("finished"@.len() != "cancelled"@.len());
        assert("finished"@ != "cancelled"@);
        match self {
            IssueStatus::Required => { assert(Self::from_name("required"@) == Some(IssueStatus::Required)); }
            IssueStatus::Ready => { assert(Self::from_name("ready"@) == Some(IssueStatus::Ready)); }
            IssueStatus::Working => { assert(Self::from_name("working"@) == Some(IssueStatus::Working)); }
            IssueStatus::Demo => { assert(Self::from_name("demo"@) == Some(IssueStatus::Demo)); }
            IssueStatus::Finished => { assert(Self::from_name("finished"@) == Some(IssueStatus::Finished)); }
            IssueStatus::Cancelled => { assert(Self::from_name("cancelled"@) == Some(IssueStatus::Cancelled)); }
        }
    }

    /// A text that is read back as a value is that value's wire name.
    pub proof fn lemma_from_name_inverse(s: Seq<char>)
        ensures
            Self::from_name(s) matches Some(v) ==> v.name() == s,
    {
    }
}

/// Priority of an issue.
#[derive(Clone, Copy, Debug, PartialEq, Eq, Structural)]
pub enum IssuePriority {
    Critical,
    High,
    Medium,
    Low,
}

impl IssuePriority {
    /// The wire name of the value.
    pub open spec fn name(self) -> Seq<char> {
        match self {
            IssuePriority::Critical => "critical"@,
            IssuePriority::High => "high"@,
            IssuePriority::Medium => "medium"@,
            IssuePriority::Low => "low"@,
        }
    }

    /// The value whose wire name is `s`, if any.
    pub open spec fn from_name(s: Seq<char>) -> Option<Self> {
        if s == "critical"@ {
            Some(IssuePriority::Critical)
        } else if s == "high"@ {
            Some(IssuePriority::High)
        } else if s == "medium"@ {
            Some(IssuePriority::Medium)
        } else if s == "low"@ {
            Some(IssuePriority::Low)
        } else {
            None
        }
    }

    /// The wire name of the value.
    pub fn as_str(&self) -> (r: &'static str)
        ensures
            r@ == self.name(),
    {
        match self {
            IssuePriority::Critical => "critical",
            IssuePriority::High => "high",
            IssuePriority::Medium => "medium",
            IssuePriority::Low => "low",
        }
    }

    /// Reads a wire name back; `None` for any other text.
    pub fn parse(s: &str) -> (r: Option<Self>)
        ensures
            r == Self::from_name(s@),
    {
        if str_eq(s, "critical") {
            Some(IssuePriority::Critical)
        } else if str_eq(s, "high") {
            Some(IssuePriority::High)
        } else if str_eq(s, "medium") {
            Some(IssuePriority::Medium)
        } else if str_eq(s, "low") {
            Some(IssuePriority::Low)
        } else {
            None
        }
    }

    /// Reading back the wire name of a value gives the value again, and no two
    /// values share a wire name.
    pub proof fn lemma_name_round_trip(self)
        ensures
            Self::from_name(self.name()) == Some(self),
    {
        reveal_strlit("critical");
        reveal_strlit("high");
        reveal_strlit("medium");
        reveal_strlit("low");
        assert("critical"@.len() != "high"@.len());
        assert("critical"@ != "high"@);
        assert("critical"@.len() != "medium"@.len());
        assert("critical"@ != "medium"@);
        assert("critical"@.len() != "low"@.len());
        assert("critical"@ != "low"@);
        assert("high"@.len() != "medium"@.len());
        assert("high"@ != "medium"@);
        assert("high"@.len() != "low"@.len());
        assert("high"@ != "low"@);
        assert("medium"@.len() != "low"@.len());
        assert("medium"@ != "low"@);
        match self {
            IssuePriority::Critical => { assert(Self::from_name("critical"@) == Some(IssuePriority::Critical)); }
            IssuePriority::High => { assert(Self::from_name("high"@) == Some(IssuePriority::High)); }
            IssuePriority::Medium => { assert(Self::from_name("medium"@) == Some(IssuePriority::Medium)); }
            IssuePriority::Low => { assert(Self::from_name("low"@) == Some(IssuePriority::Low)); }
        }
    }

    /// A text that is read back as a value is that value's wire name.
    pub proof fn lemma_from_name_inverse(s: Seq<char>)
        ensures
            Self::from_name(s) matches Some(v) ==> v.name() == s,
    {
    }
}

/// Relation between two issues.
#[derive(Clone, Copy, Debug, PartialEq, Eq, Structural)]
pub enum LinkType {
    Blocks,
    RelatesTo,
    Duplicates,
}

impl LinkType {
    /// The wire name of the value.
    pub open spec fn name(self) -> Seq<char> {
        match self {
            LinkType::Blocks => "blocks"@,
            LinkType::RelatesTo => "relates_to"@,
            LinkType::Duplicates => "duplicates"@,
        }
    }

    /// The value whose wire name is `s`, if any.
    pub open spec fn from_name(s: Seq<char>) -> Option<Self> {
        if s == "blocks"@ {
            Some(LinkType::Blocks)
        } else if s == "relates_to"@ {
            Some(LinkType::RelatesTo)
        } else if s == "duplicates"@ {
            Some(LinkType::Duplicates)
        } else {
            None
        }
    }

    /// The wire name of the value.
    pub fn as_str(&self) -> (r: &'static str)
        ensures
            r@ == self.name(),
    {
        match self {
            LinkType::Blocks => "blocks",
            LinkType::RelatesTo => "relates_to",
            LinkType::Duplicates => "duplicates",
        }
    }

    /// Reads a wire name back; `None` for any other text.
    pub fn parse(s: &str) -> (r: Option<Self>)
        ensures
            r == Self::from_name(s@),
    {
        if str_eq(s, "blocks") {
            Some(LinkType::Blocks)
        } else if str_eq(s, "relates_to") {
            Some(LinkType::RelatesTo)
        } else if str_eq(s, "duplicates") {
            Some(LinkType::Duplicates)
        } else {
            None
        }
    }

    /// Reading back the wire name of a value gives the value again, and no two
    /// values share a wire name.
    pub proof fn lemma_name_round_trip(self)
        ensures
            Self::from_name(self.name()) == Some(self),
    {
        reveal_strlit("blocks");
        reveal_strlit("relates_to");
        reveal_strlit("duplicates");
        assert("blocks"@.len() != "relates_to"@.len());
        assert("blocks"@ != "relates_to"@);
        assert("blocks"@.len() != "duplicates"@.len());
        assert("blocks"@ != "duplicates"@);
        assert("relates_to"@[0] != "duplicates"@[0]);
        assert("relates_to"@ != "duplicates"@);
        match self {
            LinkType::Blocks => { assert(Self::from_name("blocks"@) == Some(LinkType::Blocks)); }
            LinkType::RelatesTo => { assert(Self::from_name("relates_to"@) == Some(LinkType::RelatesTo)); }
            LinkType::Duplicates => { assert(Self::from_name("duplicates"@) == Some(LinkType::Duplicates)); }
        }
    }

    /// A text that is read back as a value is that value's wire name.
    pub proof fn lemma_from_name_inverse(s: Seq<char>)
        ensures
            Self::from_name(s) matches Some(v) ==> v.name() == s,
    {
    }
}

/// Lifecycle of a mission; it only changes through an explicit update.
#[derive(Clone, Copy, Debug, PartialEq, Eq, Structural)]
pub enum MissionStatus {
    Active,
    Completed,
    Cancelled,
}

impl MissionStatus {
    /// The wire name of the value.
    pub open spec fn name(self) -> Seq<char> {
        match self {
            MissionStatus::Active => "active"@,
            MissionStatus::Completed => "completed"@,
            MissionStatus::Cancelled => "cancelled"@,
        }
    }

    /// The value whose wire name is `s`, if any.
    pub open spec fn from_name(s: Seq<char>) -> Option<Self> {
        if s == "active"@ {
            Some(MissionStatus::Active)
        } else if s == "completed"@ {
            Some(MissionStatus::Completed)
        } else if s == "cancelled"@ {
            Some(MissionStatus::Cancelled)
        } else {
            None
        }
    }

    /// The wire name of the value.
    pub fn as_str(&self) -> (r: &'static str)
        ensures
            r@ == self.name(),
    {
        match self {
            MissionStatus::Active => "active",
            MissionStatus::Completed => "completed",
            MissionStatus::Cancelled => "cancelled",
        }
    }

    /// Reads a wire name back; `None` for any other text.
    pub fn parse(s: &str) -> (r: Option<Self>)
        ensures
            r == Self::from_name(s@),
    {
        if str_eq(s, "active") {
            Some(MissionStatus::Active)
        } else if str_eq(s, "completed") {
            Some(MissionStatus::Completed)
        } else if str_eq(s, "cancelled") {
            Some(MissionStatus::Cancelled)
        } else {
            None
        }
    }

    /// Reading back the wire name of a value gives the value again, and no two
    /// values share a wire name.
    pub proof fn lemma_name_round_trip(self)
        ensures
            Self::from_name(self.name()) == Some(self),
    {
        reveal_strlit("active");
        reveal_strlit("completed");
        reveal_strlit("cancelled");
        assert("active"@.len() != "completed"@.len());
        assert("active"@ != "completed"@);
        assert("active"@.len() != "cancelled"@.len());
        assert("active"@ != "cancelled"@);
        assert("completed"@[1] != "cancelled"@[1]);
        assert("completed"@ != "cancelled"@);
        match self {
            MissionStatus::Active => { assert(Self::from_name("active"@) == Some(MissionStatus::Active)); }
            MissionStatus::Completed => { assert(Self::from_name("completed"@) == Some(MissionStatus::Completed)); }
            MissionStatus::Cancelled => { assert(Self::from_name("cancelled"@) == Some(MissionStatus::Cancelled)); }
        }
    }

    /// A text that is read back as a value is that value's wire name.
    pub proof fn lemma_from_name_inverse(s: Seq<char>)
        ensures
            Self::from_name(s) matches Some(v) ==> v.name() == s,
    {
    }
}

/// Reach of a note: a single issue or task, or a broadcast to a project, sprint or epic.
#[derive(Clone, Copy, Debug, PartialEq, Eq, Structural)]
pub enum NoteScope {
    Project,
    Sprint,
    Epic,
    Issue,
    Task,
}

impl NoteScope {
    /// The wire name of the value.
    pub open spec fn name(self) -> Seq<char> {
        match self {
            NoteScope::Project => "project"@,
            NoteScope::Sprint => "sprint"@,
            NoteScope::Epic => "epic"@,
            NoteScope::Issue => "issue"@,
            NoteScope::Task => "task"@,
        }
    }

    /// The value whose wire name is `s`, if any.
    pub open spec fn from_name(s: Seq<char>) -> Option<Self> {
        if s == "project"@ {
            Some(NoteScope::Project)
        } else if s == "sprint"@ {
            Some(NoteScope::Sprint)
        } else if s == "epic"@ {
            Some(NoteScope::Epic)
        } else if s == "issue"@ {
            Some(NoteScope::Issue)
        } else if s == "task"@ {
            Some(NoteScope::Task)
        } else {
            None
        }
    }

    /// The wire name of the value.
    pub fn as_str(&self) -> (r: &'static str)
        ensures
            r@ == self.name(),
    {
        match self {
            NoteScope::Project => "project",
            NoteScope::Sprint => "sprint",
            NoteScope::Epic => "epic",
            NoteScope::Issue => "issue",
            NoteScope::Task => "task",
        }
    }

    /// Reads a wire name back; `None` for any other text.
    pub fn parse(s: &str) -> (r: Option<Self>)
        ensures
            r == Self::from_name(s@),
    {
        if str_eq(s, "project") {
            Some(NoteScope::Project)
        } else if str_eq(s, "sprint") {
            Some(NoteScope::Sprint)
        } else if str_eq(s, "epic") {
            Some(NoteScope::Epic)
        } else if str_eq(s, "issue") {
            Some(NoteScope::Issue)
        } else if str_eq(s, "task") {
            Some(NoteScope::Task)
        } else {
            None
        }
    }

    /// Reading back the wire name of a value gives the value again, and no two
    /// values share a wire name.
    pub proof fn lemma_name_round_trip(self)
        ensures
            Self::from_name(self.name()) == Some(self),
    {
        reveal_strlit("project");
        reveal_strlit("sprint");
        reveal_strlit("epic");
        reveal_strlit("issue");
        reveal_strlit("task");
        assert("project"@.len() != "sprint"@.len());
        assert("project"@ != "sprint"@);
        assert("project"@.len() != "epic"@.len());
        assert("project"@ != "epic"@);
        assert("project"@.len() != "issue"@.len());
        assert("project"@ != "issue"@);
        assert("project"@.len() != "task"@.len());
        assert("project"@ != "task"@);
        assert("sprint"@.len() != "epic"@.len());
        assert("sprint"@ != "epic"@);
        assert("sprint"@.len() != "issue"@.len());
        assert("sprint"@ != "issue"@);
        assert("sprint"@.len() != "task"@.len());
        assert("sprint"@ != "task"@);
        assert("epic"@.len() != "issue"@.len());
        assert("epic"@ != "issue"@);
        assert("epic"@[0] != "task"@[0]);
        assert("epic"@ != "task"@);
        assert("issue"@.len() != "task"@.len());
        assert("issue"@ != "task"@);
        match self {
            NoteScope::Project => { assert(Self::from_name("project"@) == Some(NoteScope::Project)); }
            NoteScope::Sprint => { assert(Self::from_name("sprint"@) == Some(NoteScope::Sprint)); }
            NoteScope::Epic => { assert(Self::from_name("epic"@) == Some(NoteScope::Epic)); }
            NoteScope::Issue => { assert(Self::from_name("issue"@) == Some(NoteScope::Issue)); }
            NoteScope::Task => { assert(Self::from_name("task"@) == Some(NoteScope::Task)); }
        }
    }

    /// A text that is read back as a value is that value's wire name.
    pub proof fn lemma_from_name_inverse(s: Seq<char>)
        ensures
            Self::from_name(s) matches Some(v) ==> v.name() == s,
    {
    }
}

/// Purpose of a note.
#[derive(Clone, Copy, Debug, PartialEq, Eq, Structural)]
pub enum NoteType {
    Caveat,
    Decision,
    Discovery,
    BlockerDetail,
    Context,
    Reference,
    Comment,
    Evaluation,
}

impl NoteType {
    /// The wire name of the value.
    pub open spec fn name(self) -> Seq<char> {
        match self {
            NoteType::Caveat => "caveat"@,
            NoteType::Decision => "decision"@,
            NoteType::Discovery => "discovery"@,
            NoteType::BlockerDetail => "blocker_detail"@,
            NoteType::Context => "context"@,
            NoteType::Reference => "reference"@,
            NoteType::Comment => "comment"@,
            NoteType::Evaluation => "evaluation"@,
        }
    }

    /// The value whose wire name is `s`, if any.
    pub open spec fn from_name(s: Seq<char>) -> Option<Self> {
        if s == "caveat"@ {
            Some(NoteType::Caveat)
        } else if s == "decision"@ {
            Some(NoteType::Decision)
        } else if s == "discovery"@ {
            Some(NoteType::Discovery)
        } else if s == "blocker_detail"@ {
            Some(NoteType::BlockerDetail)
        } else if s == "context"@ {
            Some(NoteType::Context)
        } else if s == "reference"@ {
            Some(NoteType::Reference)
        } else if s == "comment"@ {
            Some(NoteType::Comment)
        } else if s == "evaluation"@ {
            Some(NoteType::Evaluation)
        } else {
            None
        }
    }

    /// The wire name of the value.
    pub fn as_str(&self) -> (r: &'static str)
        ensures
            r@ == self.name(),
    {
        match self {
            NoteType::Caveat => "caveat",
            NoteType::Decision => "decision",
            NoteType::Discovery => "discovery",
            NoteType::BlockerDetail => "blocker_detail",
            NoteType::Context => "context",
            NoteType::Reference => "reference",
            NoteType::Comment => "comment",
            NoteType::Evaluation => "evaluation",
        }
    }

    /// Reads a wire name back; `None` for any other text.
    pub fn parse(s: &str) -> (r: Option<Self>)
        ensures
            r == Self::from_name(s@),
    {
        if str_eq(s, "caveat") {
            Some(NoteType::Caveat)
        } else if str_eq(s, "decision") {
            Some(NoteType::Decision)
        } else if str_eq(s, "discovery") {
            Some(NoteType::Discovery)
        } else if str_eq(s, "blocker_detail") {
            Some(NoteType::BlockerDetail)
        } else if str_eq(s, "context") {
            Some(NoteType::Context)
        } else if str_eq(s, "reference") {
            Some(NoteType::Reference)
        } else if str_eq(s, "comment") {
            Some(NoteType::Comment)
        } else if str_eq(s, "evaluation") {
            Some(NoteType::Evaluation)
        } else {
            None
        }
    }

    /// Reading back the wire name of a value gives the value again, and no two
    /// values share a wire name.
    pub proof fn lemma_name_round_trip(self)
        ensures
            Self::from_name(self.name()) == Some(self),
    {
        reveal_strlit("caveat");
        reveal_strlit("decision");
        reveal_strlit("discovery");
        reveal_strlit("blocker_detail");
        reveal_strlit("context");
        reveal_strlit("reference");
        reveal_strlit("comment");
        reveal_strlit("evaluation");
        assert("caveat"@.len() != "decision"@.len());
        assert("caveat"@ != "decision"@);
        assert("caveat"@.len() != "discovery"@.len());
        assert("caveat"@ != "discovery"@);
        assert("caveat"@.len() != "blocker_detail"@.len());
        assert("caveat"@ != "blocker_detail"@);
        assert("caveat"@.len() != "context"@.len());
        assert("caveat"@ != "context"@);
        assert("caveat"@.len() != "reference"@.len());
        assert("caveat"@ != "reference"@);
        assert("caveat"@.len() != "comment"@.len());
        assert("caveat"@ != "comment"@);
        assert("caveat"@.len() != "evaluation"@.len());
        assert("caveat"@ != "evaluation"@);
        assert("decision"@.len() != "discovery"@.len());
        assert("decision"@ != "discovery"@);
        assert("decision"@.len() != "blocker_detail"@.len());
        assert("decision"@ != "blocker_detail"@);
        assert("decision"@.len() != "context"@.len());
        assert("decision"@ != "context"@);
        assert("decision"@.len() != "reference"@.len());
        assert("decision"@ != "reference"@);
        assert("decision"@.len() != "comment"@.len());
        assert("decision"@ != "comment"@);
        assert("decision"@.len() != "evaluation"@.len());
        assert("decision"@ != "evaluation"@);
        assert("discovery"@.len() != "blocker_detail"@.len());
        assert("discovery"@ != "blocker_detail"@);
        assert("discovery"@.len() != "context"@.len());
        assert("discovery"@ != "context"@);
        assert("discovery"@[0] != "reference"@[0]);
        assert("discovery"@ != "reference"@);
        assert("discovery"@.len() != "comment"@.len());
        assert("discovery"@ != "comment"@);
        assert("discovery"@.len() != "evaluation"@.len());
        assert("discovery"@ != "evaluation"@);
        assert("blocker_detail"@.len() != "context"@.len());
        assert("blocker_detail"@ != "context"@);
        assert("blocker_detail"@.len() != "reference"@.len());
        assert("blocker_detail"@ != "reference"@);
        assert("blocker_detail"@.len() != "comment"@.len());
        assert("blocker_detail"@ != "comment"@);
        assert("blocker_detail"@.len() != "evaluation"@.len());
        assert("blocker_detail"@ != "evaluation"@);
        assert("context"@.len() != "reference"@.len());
        assert("context"@ != "reference"@);
        assert("context"@[2] != "comment"@[2]);
        assert("context"@ != "comment"@);
        assert("context"@.len() != "evaluation"@.len());
        assert("context"@ != "evaluation"@);
        assert("reference"@.len() != "comment"@.len());
        assert("reference"@ != "comment"@);
        assert("reference"@.len() != "evaluation"@.len());
        assert("reference"@ != "evaluation"@);
        assert("comment"@.len() != "evaluation"@.len());
        assert("comment"@ != "evaluation"@);
        match self {
            NoteType::Caveat => { assert(Self::from_name("caveat"@) == Some(NoteType::Caveat)); }
            NoteType::Decision => { assert(Self::from_name("decision"@) == Some(NoteType::Decision)); }
            NoteType::Discovery => { assert(Self::from_name("discovery"@) == Some(NoteType::Discovery)); }
            NoteType::BlockerDetail => { assert(Self::from_name("blocker_detail"@) == Some(NoteType::BlockerDetail)); }
            NoteType::Context => { assert(Self::from_name("context"@) == Some(NoteType::Context)); }
            NoteType::Reference => { assert(Self::from_name("reference"@) == Some(NoteType::Reference)); }
            NoteType::Comment => { assert(Self::from_name("comment"@) == Some(NoteType::Comment)); }
            NoteType::Evaluation => { assert(Self::from_name("evaluation"@) == Some(NoteType::Evaluation)); }
        }
    }

    /// A text that is read back as a value is that value's wire name.
    pub proof fn lemma_from_name_inverse(s: Seq<char>)
        ensures
            Self::from_name(s) matches Some(v) ==> v.name() == s,
    {
    }
}

/// Lifecycle of a sprint.
#[derive(Clone, Copy, Debug, PartialEq, Eq, Structural)]
pub enum SprintStatus {
    Planning,
    Active,
    Completed,
    Cancelled,
}

impl SprintStatus {
    /// The wire names of all sprint statuses.
    pub const ALL: [&'static str; 4] = ["planning", "active", "completed", "cancelled"];

    /// The wire name of the value.
    pub open spec fn name(self) -> Seq<char> {
        match self {
            SprintStatus::Planning => "planning"@,
            SprintStatus::Active => "active"@,
            SprintStatus::Completed => "completed"@,
            SprintStatus::Cancelled => "cancelled"@,
        }
    }

    /// The value whose wire name is `s`, if any.
    pub open spec fn from_name(s: Seq<char>) -> Option<Self> {
        if s == "planning"@ {
            Some(SprintStatus::Planning)
        } else if s == "active"@ {
            Some(SprintStatus::Active)
        } else if s == "completed"@ {
            Some(SprintStatus::Completed)
        } else if s == "cancelled"@ {
            Some(SprintStatus::Cancelled)
        } else {
            None
        }
    }

    /// The wire name of the value.
    pub fn as_str(&self) -> (r: &'static str)
        ensures
            r@ == self.name(),
    {
        match self {
            SprintStatus::Planning => "planning",
            SprintStatus::Active => "active",
            SprintStatus::Completed => "completed",
            SprintStatus::Cancelled => "cancelled",
        }
    }

    /// Reads a wire name back; `None` for any other text.
    pub fn parse(s: &str) -> (r: Option<Self>)
        ensures
            r == Self::from_name(s@),
    {
        if str_eq(s, "planning") {
            Some(SprintStatus::Planning)
        } else if str_eq(s, "active") {
            Some(SprintStatus::Active)
        } else if str_eq(s, "completed") {
            Some(SprintStatus::Completed)
        } else if str_eq(s, "cancelled") {
            Some(SprintStatus::Cancelled)
        } else {
            None
        }
    }

    /// Reading back the wire name of a value gives the value again, and no two
    /// values share a wire name.
    pub proof fn lemma_name_round_trip(self)
        ensures
            Self::from_name(self.name()) == Some(self),
    {
        reveal_strlit("planning");
        reveal_strlit("active");
        reveal_strlit("completed");
        reveal_strlit("cancelled");
        assert("planning"@.len() != "active"@.len());
        assert("planning"@ != "active"@);
        assert("planning"@.len() != "completed"@.len());
        assert("planning"@ != "completed"@);
        assert("planning"@.len() != "cancelled"@.len());
        assert("planning"@ != "cancelled"@);
        assert("active"@.len() != "completed"@.len());
        assert("active"@ != "completed"@);
        assert("active"@.len() != "cancelled"@.len());
        assert("active"@ != "cancelled"@);
        assert("completed"@[1] != "cancelled"@[1]);
        assert("completed"@ != "cancelled"@);
        match self {
            SprintStatus::Planning => { assert(Self::from_name("planning"@) == Some(SprintStatus::Planning)); }
            SprintStatus::Active => { assert(Self::from_name("active"@) == Some(SprintStatus::Active)); }
            SprintStatus::Completed => { assert(Self::from_name("completed"@) == Some(SprintStatus::Completed)); }
            SprintStatus::Cancelled => { assert(Self::from_name("cancelled"@) == Some(SprintStatus::Cancelled)); }
        }
    }

    /// A text that is read back as a value is that value's wire name.
    pub proof fn lemma_from_name_inverse(s: Seq<char>)
        ensures
            Self::from_name(s) matches Some(v) ==> v.name() == s,
    {
    }
}

/// Kanban column of a task.
#[derive(Clone, Copy, Debug, PartialEq, Eq, Structural)]
pub enum TaskStatus {
    Required,
    Ready,
    Working,
    Demo,
    Finished,
    Cancelled,
}

impl TaskStatus {
    /// The wire name of the value.
    pub open spec fn name(self) -> Seq<char> {
        match self {
            TaskStatus::Required => "required"@,
            TaskStatus::Ready => "ready"@,
            TaskStatus::Working => "working"@,
            TaskStatus::Demo => "demo"@,
            TaskStatus::Finished => "finished"@,
            TaskStatus::Cancelled => "cancelled"@,
        }
    }

    /// The value whose wire name is `s`, if any.
    pub open spec fn from_name(s: Seq<char>) -> Option<Self> {
        if s == "required"@ {
            Some(TaskStatus::Required)
        } else if s == "ready"@ {
            Some(TaskStatus::Ready)
        } else if s == "working"@ {
            Some(TaskStatus::Working)
        } else if s == "demo"@ {
            Some(TaskStatus::Demo)
        } else if s == "finished"@ {
            Some(TaskStatus::Finished)
        } else if s == "cancelled"@ {
            Some(TaskStatus::Cancelled)
        } else {
            None
        }
    }

    /// The wire name of the value.
    pub fn as_str(&self) -> (r: &'static str)
        ensures
            r@ == self.name(),
    {
        match self {
            TaskStatus::Required => "required",
            TaskStatus::Ready => "ready",
            TaskStatus::Working => "working",
            TaskStatus::Demo => "demo",
            TaskStatus::Finished => "finished",
            TaskStatus::Cancelled => "cancelled",
        }
    }

    /// Reads a wire name back; `None` for any other text.
    pub fn parse(s: &str) -> (r: Option<Self>)
        ensures
            r == Self::from_name(s@),
    {
        if str_eq(s, "required") {
            Some(TaskStatus::Required)
        } else if str_eq(s, "ready") {
            Some(TaskStatus::Ready)
        } else if str_eq(s, "working") {
            Some(TaskStatus::Working)
        } else if str_eq(s, "demo") {
            Some(TaskStatus::Demo)
        } else if str_eq(s, "finished") {
            Some(TaskStatus::Finished)
        } else if str_eq(s, "cancelled") {
            Some(TaskStatus::Cancelled)
        } else {
            None
        }
    }

    /// Reading back the wire name of a value gives the value again, and no two
    /// values share a wire name.
    pub proof fn lemma_name_round_trip(self)
        ensures
            Self::from_name(self.name()) == Some(self),
    {
        reveal_strlit("required");
        reveal_strlit("ready");
        reveal_strlit("working");
        reveal_strlit("demo");
        reveal_strlit("finished");
        reveal_strlit("cancelled");
        assert("required"@.len() != "ready"@.len());
        assert("required"@ != "ready"@);
        assert("required"@.len() != "working"@.len());
        assert("required"@ != "working"@);
        assert("required"@.len() != "demo"@.len());
        assert("required"@ != "demo"@);
        assert("required"@[0] != "finished"@[0]);
        assert("required"@ != "finished"@);
        assert("required"@.len() != "cancelled"@.len());
        assert("required"@ != "cancelled"@);
        assert("ready"@.len() != "working"@.len());
        assert("ready"@ != "working"@);
        assert("ready"@.len() != "demo"@.len());
        assert("ready"@ != "demo"@);
        assert("ready"@.len() != "finished"@.len());
        assert("ready"@ != "finished"@);
        assert("ready"@.len() != "cancelled"@.len());
        assert("ready"@ != "cancelled"@);
        assert("working"@.len() != "demo"@.len());
        assert("working"@ != "demo"@);
        assert("working"@.len() != "finished"@.len());
        assert("working"@ != "finished"@);
        assert("working"@.len() != "cancelled"@.len());
        assert("working"@ != "cancelled"@);
        assert("demo"@.len() != "finished"@.len());
        assert("demo"@ != "finished"@);
        assert("demo"@.len() != "cancelled"@.len());
        assert("demo"@ != "cancelled"@);
        assert("finished"@.len() != "cancelled"@.len());
        assert("finished"@ != "cancelled"@);
        match self {
            TaskStatus::Required => { assert(Self::from_name("required"@) == Some(TaskStatus::Required)); }
            TaskStatus::Ready => { assert(Self::from_name("ready"@) == Some(TaskStatus::Ready)); }
            TaskStatus::Working => { assert(Self::from_name("working"@) == Some(TaskStatus::Working)); }
            TaskStatus::Demo => { assert(Self::from_name("demo"@) == Some(TaskStatus::Demo)); }
            TaskStatus::Finished => { assert(Self::from_name("finished"@) == Some(TaskStatus::Finished)); }
            TaskStatus::Cancelled => { assert(Self::from_name("cancelled"@) == Some(TaskStatus::Cancelled)); }
        }
    }

    /// A text that is read back as a value is that value's wire name.
    pub proof fn lemma_from_name_inverse(s: Seq<char>)
        ensures
            Self::from_name(s) matches Some(v) ==> v.name() == s,
    {
    }
}

/// Origin of a task.
#[derive(Clone, Copy, Debug, PartialEq, Eq, Structural)]
pub enum TaskSource {
    Planned,
    AgentDiscovered,
    UserAdded,
}

impl TaskSource {
    /// The wire name of the value.
    pub open spec fn name(self) -> Seq<char> {
        match self {
            TaskSource::Planned => "planned"@,
            TaskSource::AgentDiscovered => "agent_discovered"@,
            TaskSource::UserAdded => "user_added"@,
        }
    }

    /// The value whose wire name is `s`, if any.
    pub open spec fn from_name(s: Seq<char>) -> Option<Self> {
        if s == "planned"@ {
            Some(TaskSource::Planned)
        } else if s == "agent_discovered"@ {
            Some(TaskSource::AgentDiscovered)
        } else if s == "user_added"@ {
            Some(TaskSource::UserAdded)
        } else {
            None
        }
    }

    /// The wire name of the value.
    pub fn as_str(&self) -> (r: &'static str)
        ensures
            r@ == self.name(),
    {
        match self {
            TaskSource::Planned => "planned",
            TaskSource::AgentDiscovered => "agent_discovered",
            TaskSource::UserAdded => "user_added",
        }
    }

    /// Reads a wire name back; `None` for any other text.
    pub fn parse(s: &str) -> (r: Option<Self>)
        ensures
            r == Self::from_name(s@),
    {
        if str_eq(s, "planned") {
            Some(TaskSource::Planned)
        } else if str_eq(s, "agent_discovered") {
            Some(TaskSource::AgentDiscovered)
        } else if str_eq(s, "user_added") {
            Some(TaskSource::UserAdded)
        } else {
            None
        }
    }

    /// Reading back the wire name of a value gives the value again, and no two
    /// values share a wire name.
    pub proof fn lemma_name_round_trip(self)
        ensures
            Self::from_name(self.name()) == Some(self),
    {
        reveal_strlit("planned");
        reveal_strlit("agent_discovered");
        reveal_strlit("user_added");
        assert("planned"@.len() != "agent_discovered"@.len());
        assert("planned"@ != "agent_discovered"@);
        assert("planned"@.len() != "user_added"@.len());
        assert("planned"@ != "user_added"@);
        assert("agent_discovered"@.len() != "user_added"@.len());
        assert("agent_discovered"@ != "user_added"@);
        match self {
            TaskSource::Planned => { assert(Self::from_name("planned"@) == Some(TaskSource::Planned)); }
            TaskSource::AgentDiscovered => { assert(Self::from_name("agent_discovered"@) == Some(TaskSource::AgentDiscovered)); }
            TaskSource::UserAdded => { assert(Self::from_name("user_added"@) == Some(TaskSource::UserAdded)); }
        }
    }

    /// A text that is read back as a value is that value's wire name.
    pub proof fn lemma_from_name_inverse(s: Seq<char>)
        ensures
            Self::from_name(s) matches Some(v) ==> v.name() == s,
    {
    }
}

/// Shape of a query's answer: full JSON, compact JSON, agent text or a reference index.
#[derive(Clone, Copy, Debug, PartialEq, Eq, Structural)]
pub enum OutputMode {
    Normal,
    Compact,
    Agent,
    Ref,
}

impl OutputMode {
    /// The wire name of the value.
    pub open spec fn name(self) -> Seq<char> {
        match self {
            OutputMode::Normal => "normal"@,
            OutputMode::Compact => "compact"@,
            OutputMode::Agent => "agent"@,
            OutputMode::Ref => "ref"@,
        }
    }

    /// The value whose wire name is `s`, if any.
    pub open spec fn from_name(s: Seq<char>) -> Option<Self> {
        if s == "normal"@ {
            Some(OutputMode::Normal)
        } else if s == "compact"@ {
            Some(OutputMode::Compact)
        } else if s == "agent"@ {
            Some(OutputMode::Agent)
        } else if s == "ref"@ {
            Some(OutputMode::Ref)
        } else {
            None
        }
    }

    /// The wire name of the value.
    pub fn as_str(&self) -> (r: &'static str)
        ensures
            r@ == self.name(),
    {
        match self {
            OutputMode::Normal => "normal",
            OutputMode::Compact => "compact",
            OutputMode::Agent => "agent",
            OutputMode::Ref => "ref",
        }
    }

    /// Reads a wire name back; `None` for any other text.
    pub fn parse(s: &str) -> (r: Option<Self>)
        ensures
            r == Self::from_name(s@),
    {
        if str_eq(s, "normal") {
            Some(OutputMode::Normal)
        } else if str_eq(s, "compact") {
            Some(OutputMode::Compact)
        } else if str_eq(s, "agent") {
            Some(OutputMode::Agent)
        } else if str_eq(s, "ref") {
            Some(OutputMode::Ref)
        } else {
            None
        }
    }

    /// Reading back the wire name of a value gives the value again, and no two
    /// values share a wire name.
    pub proof fn lemma_name_round_trip(self)
        ensures
            Self::from_name(self.name()) == Some(self),
    {
        reveal_strlit("normal");
        reveal_strlit("compact");
        reveal_strlit("agent");
        reveal_strlit("ref");
        assert("normal"@.len() != "compact"@.len());
        assert("normal"@ != "compact"@);
        assert("normal"@.len() != "agent"@.len());
        assert("normal"@ != "agent"@);
        assert("normal"@.len() != "ref"@.len());
        assert("normal"@ != "ref"@);
        assert("compact"@.len() != "agent"@.len());
        assert("compact"@ != "agent"@);
        assert("compact"@.len() != "ref"@.len());
        assert("compact"@ != "ref"@);
        assert("agent"@.len() != "ref"@.len());
        assert("agent"@ != "ref"@);
        match self {
            OutputMode::Normal => { assert(Self::from_name("normal"@) == Some(OutputMode::Normal)); }
            OutputMode::Compact => { assert(Self::from_name("compact"@) == Some(OutputMode::Compact)); }
            OutputMode::Agent => { assert(Self::from_name("agent"@) == Some(OutputMode::Agent)); }
            OutputMode::Ref => { assert(Self::from_name("ref"@) == Some(OutputMode::Ref)); }
        }
    }

    /// A text that is read back as a value is that value's wire name.
    pub proof fn lemma_from_name_inverse(s: Seq<char>)
        ensures
            Self::from_name(s) matches Some(v) ==> v.name() == s,
    {
    }
}

} // verus!
