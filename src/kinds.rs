//! Closed enumerations and their stored small-integer codes.
//!
//! Each enumeration is stored as an `i16` column. Reading fails closed: a
//! code outside the table, or a name no variant has, reads as nothing.

use crate::text::same_text;
use vstd::prelude::*;

verus! {
/// Progress state of a task.
#[derive(Clone, Copy, Debug, PartialEq, Eq, Structural)]
pub enum TaskStatus {
    Wishlist,
    Todo,
    PlanningAndEstimating,
    InQueue,
    InProgress,
    ToReview,
    InReviewal,
    Complete,
}

impl TaskStatus {
    /// The stored code of a variant.
    pub open spec fn spec_code(self) -> i16 {
        match self {
            TaskStatus::Wishlist => 0,
            TaskStatus::Todo => 1,
            TaskStatus::PlanningAndEstimating => 2,
            TaskStatus::InQueue => 3,
            TaskStatus::InProgress => 4,
            TaskStatus::ToReview => 5,
            TaskStatus::InReviewal => 6,
            TaskStatus::Complete => 7,
        }
    }

    /// The variant a stored code reads as; `None` for a code outside the table.
    pub open spec fn spec_from_code(c: i16) -> Option<Self> {
        if c == 0 {
            Some(TaskStatus::Wishlist)
        } else if c == 1 {
            Some(TaskStatus::Todo)
        } else if c == 2 {
            Some(TaskStatus::PlanningAndEstimating)
        } else if c == 3 {
            Some(TaskStatus::InQueue)
        } else if c == 4 {
            Some(TaskStatus::InProgress)
        } else if c == 5 {
            Some(TaskStatus::ToReview)
        } else if c == 6 {
            Some(TaskStatus::InReviewal)
        } else if c == 7 {
            Some(TaskStatus::Complete)
        } else {
            None
        }
    }

    /// The stored code of this variant.
    pub fn code(&self) -> (r: i16)
        ensures
            r == self.spec_code(),
            0 <= r < 8,
    {
        match self {
            TaskStatus::Wishlist => 0,
            TaskStatus::Todo => 1,
            TaskStatus::PlanningAndEstimating => 2,
            TaskStatus::InQueue => 3,
            TaskStatus::InProgress => 4,
            TaskStatus::ToReview => 5,
            TaskStatus::InReviewal => 6,
            TaskStatus::Complete => 7,
        }
    }

    /// The variant a stored code reads as; `None` for a code outside the table.
    pub fn from_code(c: i16) -> (r: Option<Self>)
        ensures
            r == Self::spec_from_code(c),
    {
        if c == 0 {
            Some(TaskStatus::Wishlist)
        } else if c == 1 {
            Some(TaskStatus::Todo)
        } else if c == 2 {
            Some(TaskStatus::PlanningAndEstimating)
        } else if c == 3 {
            Some(TaskStatus::InQueue)
        } else if c == 4 {
            Some(TaskStatus::InProgress)
        } else if c == 5 {
            Some(TaskStatus::ToReview)
        } else if c == 6 {
            Some(TaskStatus::InReviewal)
        } else if c == 7 {
            Some(TaskStatus::Complete)
        } else {
            None
        }
    }

    /// The text shown for a variant.
    pub open spec fn label(self) -> Seq<char> {
        match self {
            TaskStatus::Wishlist => "Wishlist"@,
            TaskStatus::Todo => "Todo"@,
            TaskStatus::PlanningAndEstimating => "Planning And Estimating"@,
            TaskStatus::InQueue => "In Queue"@,
            TaskStatus::InProgress => "In Progress"@,
            TaskStatus::ToReview => "To Review"@,
            TaskStatus::InReviewal => "In Reviewal"@,
            TaskStatus::Complete => "Complete"@,
        }
    }

    /// The text shown for this variant.
    pub fn to_string(&self) -> (r: String)
        ensures
            r@ == self.label(),
    {
        match self {
            TaskStatus::Wishlist => "Wishlist".to_owned(),
            TaskStatus::Todo => "Todo".to_owned(),
            TaskStatus::PlanningAndEstimating => "Planning And Estimating".to_owned(),
            TaskStatus::InQueue => "In Queue".to_owned(),
            TaskStatus::InProgress => "In Progress".to_owned(),
            TaskStatus::ToReview => "To Review".to_owned(),
            TaskStatus::InReviewal => "In Reviewal".to_owned(),
            TaskStatus::Complete => "Complete".to_owned(),
        }
    }

    /// The variant a text names; `None` for any other text.
    pub open spec fn spec_from_label(s: Seq<char>) -> Option<Self> {
        if s == "Wishlist"@ {
            Some(TaskStatus::Wishlist)
        } else if s == "Todo"@ {
            Some(TaskStatus::Todo)
        } else if s == "PlanningAndEstimating"@ {
            Some(TaskStatus::PlanningAndEstimating)
        } else if s == "InQueue"@ {
            Some(TaskStatus::InQueue)
        } else if s == "InProgress"@ {
            Some(TaskStatus::InProgress)
        } else if s == "ToReview"@ {
            Some(TaskStatus::ToReview)
        } else if s == "InReviewal"@ {
            Some(TaskStatus::InReviewal)
        } else if s == "Complete"@ {
            Some(TaskStatus::Complete)
        } else {
            None
        }
    }

    /// Reads a variant from its name; refused for any other text.
    pub fn from_str(input: &str) -> (r: Result<Self, ()>)
        ensures
            r is Ok <==> Self::spec_from_label(input@) is Some,
            r matches Ok(v) ==> Self::spec_from_label(input@) == Some(v),
    {
        if same_text(input, "Wishlist") {
            Ok(TaskStatus::Wishlist)
        } else if same_text(input, "Todo") {
            Ok(TaskStatus::Todo)
        } else if same_text(input, "PlanningAndEstimating") {
            Ok(TaskStatus::PlanningAndEstimating)
        } else if same_text(input, "InQueue") {
            Ok(TaskStatus::InQueue)
        } else if same_text(input, "InProgress") {
            Ok(TaskStatus::InProgress)
        } else if same_text(input, "ToReview") {
            Ok(TaskStatus::ToReview)
        } else if same_text(input, "InReviewal") {
            Ok(TaskStatus::InReviewal)
        } else if same_text(input, "Complete") {
            Ok(TaskStatus::Complete)
        } else {
            Err(())
        }
    }
}

/// Reading back the stored code of a TaskStatus gives the same variant.
pub proof fn lemma_task_status_code_round_trip(x: TaskStatus)
    ensures
        TaskStatus::spec_from_code(x.spec_code()) == Some(x),
{
}

/// Whether a business contact is a client or a supplier.
#[derive(Clone, Copy, Debug, PartialEq, Eq, Structural)]
pub enum EntityType {
    Client,
    Supplier,
}

impl EntityType {
    /// The stored code of a variant.
    pub open spec fn spec_code(self) -> i16 {
        match self {
            EntityType::Client => 0,
            EntityType::Supplier => 1,
        }
    }

    /// The variant a stored code reads as; `None` for a code outside the table.
    pub open spec fn spec_from_code(c: i16) -> Option<Self> {
        if c == 0 {
            Some(EntityType::Client)
        } else if c == 1 {
            Some(EntityType::Supplier)
        } else {
            None
        }
    }

    /// The stored code of this variant.
    pub fn code(&self) -> (r: i16)
        ensures
            r == self.spec_code(),
            0 <= r < 2,
    {
        match self {
            EntityType::Client => 0,
            EntityType::Supplier => 1,
        }
    }

    /// The variant a stored code reads as; `None` for a code outside the table.
    pub fn from_code(c: i16) -> (r: Option<Self>)
        ensures
            r == Self::spec_from_code(c),
    {
        if c == 0 {
            Some(EntityType::Client)
        } else if c == 1 {
            Some(EntityType::Supplier)
        } else {
            None
        }
    }
}

/// Reading back the stored code of a EntityType gives the same variant.
pub proof fn lemma_entity_type_code_round_trip(x: EntityType)
    ensures
        EntityType::spec_from_code(x.spec_code()) == Some(x),
{
}

/// The kind of record a file or a note is attached to.
#[derive(Clone, Copy, Debug, PartialEq, Eq, Structural)]
pub enum AssociationType {
    Organization,
    Project,
    Task,
    Entity,
    Contact,
    Milestone,
    User,
}

impl AssociationType {
    /// The stored code of a variant.
    pub open spec fn spec_code(self) -> i16 {
        match self {
            AssociationType::Organization => 0,
            AssociationType::Project => 1,
            AssociationType::Task => 2,
            AssociationType::Entity => 3,
            AssociationType::Contact => 4,
            AssociationType::Milestone => 5,
            AssociationType::User => 6,
        }
    }

    /// The variant a stored code reads as; `None` for a code outside the table.
    pub open spec fn spec_from_code(c: i16) -> Option<Self> {
        if c == 0 {
            Some(AssociationType::Organization)
        } else if c == 1 {
            Some(AssociationType::Project)
        } else if c == 2 {
            Some(AssociationType::Task)
        } else if c == 3 {
            Some(AssociationType::Entity)
        } else if c == 4 {
            Some(AssociationType::Contact)
        } else if c == 5 {
            Some(AssociationType::Milestone)
        } else if c == 6 {
            Some(AssociationType::User)
        } else {
            None
        }
    }

    /// The stored code of this variant.
    pub fn code(&self) -> (r: i16)
        ensures
            r == self.spec_code(),
            0 <= r < 7,
    {
        match self {
            AssociationType::Organization => 0,
            AssociationType::Project => 1,
            AssociationType::Task => 2,
            AssociationType::Entity => 3,
            AssociationType::Contact => 4,
            AssociationType::Milestone => 5,
            AssociationType::User => 6,
        }
    }

    /// The variant a stored code reads as; `None` for a code outside the table.
    pub fn from_code(c: i16) -> (r: Option<Self>)
        ensures
            r == Self::spec_from_code(c),
    {
        if c == 0 {
            Some(AssociationType::Organization)
        } else if c == 1 {
            Some(AssociationType::Project)
        } else if c == 2 {
            Some(AssociationType::Task)
        } else if c == 3 {
            Some(AssociationType::Entity)
        } else if c == 4 {
            Some(AssociationType::Contact)
        } else if c == 5 {
            Some(AssociationType::Milestone)
        } else if c == 6 {
            Some(AssociationType::User)
        } else {
            None
        }
    }

    /// The text shown for a variant.
    pub open spec fn label(self) -> Seq<char> {
        match self {
            AssociationType::Organization => "Organization"@,
            AssociationType::Project => "Project"@,
            AssociationType::Task => "Task"@,
            AssociationType::Entity => "Entity"@,
            AssociationType::Contact => "Contact"@,
            AssociationType::Milestone => "Milestone"@,
            AssociationType::User => "User"@,
        }
    }

    /// The text shown for this variant.
    pub fn to_string(&self) -> (r: String)
        ensures
            r@ == self.label(),
    {
        match self {
            AssociationType::Organization => "Organization".to_owned(),
            AssociationType::Project => "Project".to_owned(),
            AssociationType::Task => "Task".to_owned(),
            AssociationType::Entity => "Entity".to_owned(),
            AssociationType::Contact => "Contact".to_owned(),
            AssociationType::Milestone => "Milestone".to_owned(),
            AssociationType::User => "User".to_owned(),
        }
    }

    /// The variant a text names; `None` for any other text.
    pub open spec fn spec_from_label(s: Seq<char>) -> Option<Self> {
        if s == "Organization"@ {
            Some(AssociationType::Organization)
        } else if s == "Project"@ {
            Some(AssociationType::Project)
        } else if s == "Task"@ {
            Some(AssociationType::Task)
        } else if s == "Entity"@ {
            Some(AssociationType::Entity)
        } else if s == "Contact"@ {
            Some(AssociationType::Contact)
        } else if s == "Milestone"@ {
            Some(AssociationType::Milestone)
        } else if s == "User"@ {
            Some(AssociationType::User)
        } else {
            None
        }
    }

    /// Reads a variant from its name; refused for any other text.
    pub fn from_str(input: &str) -> (r: Result<Self, ()>)
        ensures
            r is Ok <==> Self::spec_from_label(input@) is Some,
            r matches Ok(v) ==> Self::spec_from_label(input@) == Some(v),
    {
        if same_text(input, "Organization") {
            Ok(AssociationType::Organization)
        } else if same_text(input, "Project") {
            Ok(AssociationType::Project)
        } else if same_text(input, "Task") {
            Ok(AssociationType::Task)
        } else if same_text(input, "Entity") {
            Ok(AssociationType::Entity)
        } else if same_text(input, "Contact") {
            Ok(AssociationType::Contact)
        } else if same_text(input, "Milestone") {
            Ok(AssociationType::Milestone)
        } else if same_text(input, "User") {
            Ok(AssociationType::User)
        } else {
            Err(())
        }
    }
}

/// Reading back the stored code of a AssociationType gives the same variant.
pub proof fn lemma_association_type_code_round_trip(x: AssociationType)
    ensures
        AssociationType::spec_from_code(x.spec_code()) == Some(x),
{
}

/// How a service item is billed.
#[derive(Clone, Copy, Debug, PartialEq, Eq, Structural)]
pub enum ServiceValueType {
    Hourly,
    Milestone,
    Full,
}

impl ServiceValueType {
    /// The stored code of a variant.
    pub open spec fn spec_code(self) -> i16 {
        match self {
            ServiceValueType::Hourly => 0,
            ServiceValueType::Milestone => 1,
            ServiceValueType::Full => 2,
        }
    }

    /// The variant a stored code reads as; `None` for a code outside the table.
    pub open spec fn spec_from_code(c: i16) -> Option<Self> {
        if c == 0 {
            Some(ServiceValueType::Hourly)
        } else if c == 1 {
            Some(ServiceValueType::Milestone)
        } else if c == 2 {
            Some(ServiceValueType::Full)
        } else {
            None
        }
    }

    /// The stored code of this variant.
    pub fn code(&self) -> (r: i16)
        ensures
            r == self.spec_code(),
            0 <= r < 3,
    {
        match self {
            ServiceValueType::Hourly => 0,
            ServiceValueType::Milestone => 1,
            ServiceValueType::Full => 2,
        }
    }

    /// The variant a stored code reads as; `None` for a code outside the table.
    pub fn from_code(c: i16) -> (r: Option<Self>)
        ensures
            r == Self::spec_from_code(c),
    {
        if c == 0 {
            Some(ServiceValueType::Hourly)
        } else if c == 1 {
            Some(ServiceValueType::Milestone)
        } else if c == 2 {
            Some(ServiceValueType::Full)
        } else {
            None
        }
    }

    /// The text shown for a variant.
    pub open spec fn label(self) -> Seq<char> {
        match self {
            ServiceValueType::Hourly => "Hourly Rate"@,
            ServiceValueType::Milestone => "Milestone Completion"@,
            ServiceValueType::Full => "Upon Completion"@,
        }
    }

    /// The text shown for this variant.
    pub fn to_string(&self) -> (r: String)
        ensures
            r@ == self.label(),
    {
        match self {
            ServiceValueType::Hourly => "Hourly Rate".to_owned(),
            ServiceValueType::Milestone => "Milestone Completion".to_owned(),
            ServiceValueType::Full => "Upon Completion".to_owned(),
        }
    }

    /// The variant a text names; `None` for any other text.
    pub open spec fn spec_from_label(s: Seq<char>) -> Option<Self> {
        if s == "Hourly Rate"@ {
            Some(ServiceValueType::Hourly)
        } else if s == "Milestone Completion"@ {
            Some(ServiceValueType::Milestone)
        } else if s == "Upon Completion"@ {
            Some(ServiceValueType::Full)
        } else if s == "Full"@ {
            Some(ServiceValueType::Full)
        } else {
            None
        }
    }

    /// Reads a variant from its name; refused for any other text.
    pub fn from_str(input: &str) -> (r: Result<Self, ()>)
        ensures
            r is Ok <==> Self::spec_from_label(input@) is Some,
            r matches Ok(v) ==> Self::spec_from_label(input@) == Some(v),
    {
        if same_text(input, "Hourly Rate") {
            Ok(ServiceValueType::Hourly)
        } else if same_text(input, "Milestone Completion") {
            Ok(ServiceValueType::Milestone)
        } else if same_text(input, "Upon Completion") {
            Ok(ServiceValueType::Full)
        } else if same_text(input, "Full") {
            Ok(ServiceValueType::Full)
        } else {
            Err(())
        }
    }
}

/// Reading back the stored code of a ServiceValueType gives the same variant.
pub proof fn lemma_service_value_type_code_round_trip(x: ServiceValueType)
    ensures
        ServiceValueType::spec_from_code(x.spec_code()) == Some(x),
{
}

/// Whether a service item is a service or a good.
#[derive(Clone, Copy, Debug, PartialEq, Eq, Structural)]
pub enum ServiceItemType {
    Service,
    Item,
}

impl ServiceItemType {
    /// The stored code of a variant.
    pub open spec fn spec_code(self) -> i16 {
        match self {
            ServiceItemType::Service => 0,
            ServiceItemType::Item => 1,
        }
    }

    /// The variant a stored code reads as; `None` for a code outside the table.
    pub open spec fn spec_from_code(c: i16) -> Option<Self> {
        if c == 0 {
            Some(ServiceItemType::Service)
        } else if c == 1 {
            Some(ServiceItemType::Item)
        } else {
            None
        }
    }

    /// The stored code of this variant.
    pub fn code(&self) -> (r: i16)
        ensures
            r == self.spec_code(),
            0 <= r < 2,
    {
        match self {
            ServiceItemType::Service => 0,
            ServiceItemType::Item => 1,
        }
    }

    /// The variant a stored code reads as; `None` for a code outside the table.
    pub fn from_code(c: i16) -> (r: Option<Self>)
        ensures
            r == Self::spec_from_code(c),
    {
        if c == 0 {
            Some(ServiceItemType::Service)
        } else if c == 1 {
            Some(ServiceItemType::Item)
        } else {
            None
        }
    }

    /// The text shown for a variant.
    pub open spec fn label(self) -> Seq<char> {
        match self {
            ServiceItemType::Service => "Service"@,
            ServiceItemType::Item => "Item"@,
        }
    }

    /// The text shown for this variant.
    pub fn to_string(&self) -> (r: String)
        ensures
            r@ == self.label(),
    {
        match self {
            ServiceItemType::Service => "Service".to_owned(),
            ServiceItemType::Item => "Item".to_owned(),
        }
    }
}

/// Reading back the stored code of a ServiceItemType gives the same variant.
pub proof fn lemma_service_item_type_code_round_trip(x: ServiceItemType)
    ensures
        ServiceItemType::spec_from_code(x.spec_code()) == Some(x),
{
}

/// The kind of record a notification is about; a room subscribes to one kind.
#[derive(Clone, Copy, Debug, PartialEq, Eq, Structural)]
pub enum MessageDataType {
    All,
    Board,
    Entity,
    File,
    Milestone,
    Organization,
    Project,
    Task,
    User,
    Report,
    Room,
}

impl MessageDataType {
    /// The stored code of a variant.
    pub open spec fn spec_code(self) -> i16 {
        match self {
            MessageDataType::All => 0,
            MessageDataType::Board => 1,
            MessageDataType::Entity => 2,
            MessageDataType::File => 3,
            MessageDataType::Milestone => 4,
            MessageDataType::Organization => 5,
            MessageDataType::Project => 6,
            MessageDataType::Task => 7,
            MessageDataType::User => 8,
            MessageDataType::Report => 9,
            MessageDataType::Room => 10,
        }
    }

    /// The variant a stored code reads as; `None` for a code outside the table.
    pub open spec fn spec_from_code(c: i16) -> Option<Self> {
        if c == 0 {
            Some(MessageDataType::All)
        } else if c == 1 {
            Some(MessageDataType::Board)
        } else if c == 2 {
            Some(MessageDataType::Entity)
        } else if c == 3 {
            Some(MessageDataType::File)
        } else if c == 4 {
            Some(MessageDataType::Milestone)
        } else if c == 5 {
            Some(MessageDataType::Organization)
        } else if c == 6 {
            Some(MessageDataType::Project)
        } else if c == 7 {
            Some(MessageDataType::Task)
        } else if c == 8 {
            Some(MessageDataType::User)
        } else if c == 9 {
            Some(MessageDataType::Report)
        } else if c == 10 {
            Some(MessageDataType::Room)
        } else {
            None
        }
    }

    /// The stored code of this variant.
    pub fn code(&self) -> (r: i16)
        ensures
            r == self.spec_code(),
            0 <= r < 11,
    {
        match self {
            MessageDataType::All => 0,
            MessageDataType::Board => 1,
            MessageDataType::Entity => 2,
            MessageDataType::File => 3,
            MessageDataType::Milestone => 4,
            MessageDataType::Organization => 5,
            MessageDataType::Project => 6,
            MessageDataType::Task => 7,
            MessageDataType::User => 8,
            MessageDataType::Report => 9,
            MessageDataType::Room => 10,
        }
    }

    /// The variant a stored code reads as; `None` for a code outside the table.
    pub fn from_code(c: i16) -> (r: Option<Self>)
        ensures
            r == Self::spec_from_code(c),
    {
        if c == 0 {
            Some(MessageDataType::All)
        } else if c == 1 {
            Some(MessageDataType::Board)
        } else if c == 2 {
            Some(MessageDataType::Entity)
        } else if c == 3 {
            Some(MessageDataType::File)
        } else if c == 4 {
            Some(MessageDataType::Milestone)
        } else if c == 5 {
            Some(MessageDataType::Organization)
        } else if c == 6 {
            Some(MessageDataType::Project)
        } else if c == 7 {
            Some(MessageDataType::Task)
        } else if c == 8 {
            Some(MessageDataType::User)
        } else if c == 9 {
            Some(MessageDataType::Report)
        } else if c == 10 {
            Some(MessageDataType::Room)
        } else {
            None
        }
    }
}

/// Reading back the stored code of a MessageDataType gives the same variant.
pub proof fn lemma_message_data_type_code_round_trip(x: MessageDataType)
    ensures
        MessageDataType::spec_from_code(x.spec_code()) == Some(x),
{
}

} // verus!
