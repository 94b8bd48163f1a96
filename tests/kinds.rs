use kinbrio::kinds::{
    AssociationType, EntityType, MessageDataType, ServiceItemType, ServiceValueType, TaskStatus,
};

#[test]
fn task_status_codes_and_labels() {
    assert_eq!(TaskStatus::Wishlist.code(), 0);
    assert_eq!(TaskStatus::Complete.code(), 7);
    assert_eq!(TaskStatus::from_code(5), Some(TaskStatus::ToReview));
    assert_eq!(TaskStatus::from_code(8), None);
    assert_eq!(TaskStatus::from_code(-1), None);
    assert_eq!(TaskStatus::PlanningAndEstimating.to_string(), "Planning And Estimating");
    assert_eq!(TaskStatus::from_str("InReviewal"), Ok(TaskStatus::InReviewal));
    assert_eq!(TaskStatus::from_str("In Reviewal"), Err(()));
}

#[test]
fn every_code_reads_back() {
    for c in 0..8 {
        assert_eq!(TaskStatus::from_code(c).map(|x| x.code()), Some(c));
    }
    for c in 0..7 {
        assert_eq!(AssociationType::from_code(c).map(|x| x.code()), Some(c));
    }
    for c in 0..11 {
        assert_eq!(MessageDataType::from_code(c).map(|x| x.code()), Some(c));
    }
    for c in 0..3 {
        assert_eq!(ServiceValueType::from_code(c).map(|x| x.code()), Some(c));
    }
    for c in 0..2 {
        assert_eq!(ServiceItemType::from_code(c).map(|x| x.code()), Some(c));
        assert_eq!(EntityType::from_code(c).map(|x| x.code()), Some(c));
    }
    assert_eq!(MessageDataType::from_code(11), None);
    assert_eq!(EntityType::from_code(2), None);
}

#[test]
fn service_value_type_labels() {
    assert_eq!(ServiceValueType::from_str("Full"), Ok(ServiceValueType::Full));
    assert_eq!(ServiceValueType::from_str("Upon Completion"), Ok(ServiceValueType::Full));
    assert_eq!(ServiceValueType::from_str("Milestone Completion"), Ok(ServiceValueType::Milestone));
    assert_eq!(ServiceValueType::from_str("Hourly Rate"), Ok(ServiceValueType::Hourly));
    assert_eq!(ServiceValueType::from_str("weekly"), Err(()));
    assert_eq!(ServiceValueType::Full.to_string(), "Upon Completion");
    assert_eq!(ServiceItemType::Item.to_string(), "Item");
}

#[test]
fn association_type_labels() {
    assert_eq!(AssociationType::from_str("Contact"), Ok(AssociationType::Contact));
    assert_eq!(AssociationType::from_str("contact"), Err(()));
    assert_eq!(AssociationType::User.to_string(), "User");
    assert_eq!(AssociationType::Milestone.code(), 5);
}
