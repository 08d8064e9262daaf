use motorchik::command_filter::{CommandDisability, CommandFilter, EditCommandFilter};

const CHANNELS: [u64; 6] = [0, 1, 2, 3, 17, u64::MAX];

#[test]
fn unrestricted_allows_every_channel() {
    for listed in [vec![], vec![1, 2], vec![u64::MAX]] {
        let filter = CommandFilter::new(CommandDisability::Unrestricted, listed);
        for channel in CHANNELS {
            assert_eq!(Ok(CommandDisability::Unrestricted), filter.can_run(channel));
        }
    }
}

#[test]
fn global_denies_every_channel() {
    for listed in [vec![], vec![1, 2], vec![u64::MAX]] {
        let filter = CommandFilter::new(CommandDisability::Global, listed);
        for channel in CHANNELS {
            assert_eq!(Err(CommandDisability::Global), filter.can_run(channel));
        }
    }
}

#[test]
fn empty_whitelist_denies_every_channel() {
    let filter = CommandFilter::new(CommandDisability::Whitelisted, vec![]);
    for channel in CHANNELS {
        assert_eq!(Err(CommandDisability::Whitelisted), filter.can_run(channel));
    }
}

#[test]
fn empty_blacklist_allows_every_channel() {
    let filter = CommandFilter::new(CommandDisability::Blacklisted, vec![]);
    for channel in CHANNELS {
        assert_eq!(Ok(CommandDisability::Blacklisted), filter.can_run(channel));
    }
}

#[test]
fn whitelist_allows_listed_channels_only() {
    let filter = CommandFilter::new(CommandDisability::Whitelisted, vec![2, 17]);
    assert_eq!(Ok(CommandDisability::Whitelisted), filter.can_run(2));
    assert_eq!(Ok(CommandDisability::Whitelisted), filter.can_run(17));
    assert_eq!(Err(CommandDisability::Whitelisted), filter.can_run(0));
    assert_eq!(Err(CommandDisability::Whitelisted), filter.can_run(1));
    assert_eq!(Err(CommandDisability::Whitelisted), filter.can_run(3));
    assert_eq!(Err(CommandDisability::Whitelisted), filter.can_run(u64::MAX));
}

#[test]
fn blacklist_denies_listed_channels_only() {
    let filter = CommandFilter::new(CommandDisability::Blacklisted, vec![2, 17, 2]);
    assert_eq!(Err(CommandDisability::Blacklisted), filter.can_run(2));
    assert_eq!(Err(CommandDisability::Blacklisted), filter.can_run(17));
    assert_eq!(Ok(CommandDisability::Blacklisted), filter.can_run(0));
    assert_eq!(Ok(CommandDisability::Blacklisted), filter.can_run(1));
    assert_eq!(Ok(CommandDisability::Blacklisted), filter.can_run(3));
    assert_eq!(Ok(CommandDisability::Blacklisted), filter.can_run(u64::MAX));
}

#[test]
fn default_filter_is_unrestricted_and_lists_nothing() {
    let filter = CommandFilter::default();
    assert_eq!(CommandDisability::Unrestricted, filter.filter_type());
    assert!(filter.filter_list().is_empty());
    assert_eq!(CommandDisability::Unrestricted, CommandDisability::default());
}

#[test]
fn filter_accessors_give_back_what_was_put_in() {
    let filter = CommandFilter::new(CommandDisability::Blacklisted, vec![3, 1, 2]);
    assert_eq!(CommandDisability::Blacklisted, filter.filter_type());
    assert_eq!(&vec![3, 1, 2], filter.filter_list());
    let copy = filter.clone();
    assert_eq!(CommandDisability::Blacklisted, copy.filter_type());
    assert_eq!(&vec![3, 1, 2], copy.filter_list());
}

#[test]
fn restriction_codes() {
    assert_eq!(0, CommandDisability::Unrestricted.to_code());
    assert_eq!(1, CommandDisability::Global.to_code());
    assert_eq!(2, CommandDisability::Blacklisted.to_code());
    assert_eq!(3, CommandDisability::Whitelisted.to_code());
    assert_eq!(Some(CommandDisability::Unrestricted), CommandDisability::from_code(0));
    assert_eq!(Some(CommandDisability::Global), CommandDisability::from_code(1));
    assert_eq!(Some(CommandDisability::Blacklisted), CommandDisability::from_code(2));
    assert_eq!(Some(CommandDisability::Whitelisted), CommandDisability::from_code(3));
    assert_eq!(None, CommandDisability::from_code(4));
    assert_eq!(None, CommandDisability::from_code(255));
}

#[test]
fn restriction_codes_round_trip() {
    for code in 0..=255u8 {
        match CommandDisability::from_code(code) {
            Some(filter_type) => assert_eq!(code, filter_type.to_code()),
            None => assert!(code > 3),
        }
    }
}

#[test]
fn edit_command_filter_builders() {
    let mut edit = EditCommandFilter::default();
    assert!(edit.is_empty());
    assert_eq!(None, edit.filter_type);
    assert_eq!(None, edit.channels);

    edit.filter_type(CommandDisability::Whitelisted).channels(vec![2, 3]);
    assert!(!edit.is_empty());
    assert_eq!(Some(CommandDisability::Whitelisted), edit.filter_type);
    assert_eq!(Some(vec![2, 3]), edit.channels);

    edit.enable();
    assert_eq!(Some(CommandDisability::Unrestricted), edit.filter_type);
    assert_eq!(Some(vec![2, 3]), edit.channels);

    edit.disable();
    assert_eq!(Some(CommandDisability::Global), edit.filter_type);
    assert_eq!(Some(vec![2, 3]), edit.channels);

    let mut only_channels = EditCommandFilter::default();
    only_channels.channels(vec![]);
    assert!(!only_channels.is_empty());
    assert_eq!(None, only_channels.filter_type);
}

#[test]
fn edit_command_filter_apply_touches_only_what_is_set() {
    let mut filter = CommandFilter::new(CommandDisability::Blacklisted, vec![1]);
    EditCommandFilter::default().apply(&mut filter);
    assert_eq!(CommandDisability::Blacklisted, filter.filter_type());
    assert_eq!(&vec![1], filter.filter_list());

    let mut kind = EditCommandFilter::default();
    kind.disable();
    kind.apply(&mut filter);
    assert_eq!(CommandDisability::Global, filter.filter_type());
    assert_eq!(&vec![1], filter.filter_list());

    let mut list = EditCommandFilter::default();
    list.channels(vec![8, 9]);
    list.apply(&mut filter);
    assert_eq!(CommandDisability::Global, filter.filter_type());
    assert_eq!(&vec![8, 9], filter.filter_list());
}
