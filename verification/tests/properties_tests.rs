use libobs_wrapper::data::properties::{
    optional_text, ObsButtonType, ObsComboFormat, ObsComboType, ObsEditableListType,
    ObsGroupType, ObsNumberType, ObsPathType, ObsPropertyType, ObsTextInfoType, ObsTextType,
};

#[test]
fn test_obs_property_type_values() {
    assert_eq!(ObsPropertyType::Bool, ObsPropertyType::Bool);
    assert_ne!(ObsPropertyType::Bool, ObsPropertyType::Int);
}

#[test]
fn test_obs_property_type_clone() {
    let prop = ObsPropertyType::Text;
    #[allow(clippy::clone_on_copy)]
    let cloned = prop.clone();
    assert_eq!(prop, cloned);
}

#[test]
fn test_obs_property_type_debug() {
    let prop = ObsPropertyType::Button;
    let debug_str = format!("{:?}", prop);
    assert!(debug_str.contains("Button"));
}

#[test]
fn test_obs_combo_format_values() {
    assert_eq!(ObsComboFormat::String, ObsComboFormat::String);
    assert_ne!(ObsComboFormat::String, ObsComboFormat::Int);
}

#[test]
fn test_obs_combo_format_clone() {
    let format = ObsComboFormat::Float;
    #[allow(clippy::clone_on_copy)]
    let cloned = format.clone();
    assert_eq!(format, cloned);
}

#[test]
fn test_obs_combo_type_values() {
    assert_eq!(ObsComboType::List, ObsComboType::List);
    assert_ne!(ObsComboType::List, ObsComboType::Radio);
}

#[test]
fn test_obs_text_type_values() {
    assert_eq!(ObsTextType::Password, ObsTextType::Password);
    assert_ne!(ObsTextType::Password, ObsTextType::Multiline);
}

#[test]
fn test_obs_text_info_type_values() {
    assert_eq!(ObsTextInfoType::Warning, ObsTextInfoType::Warning);
    assert_ne!(ObsTextInfoType::Warning, ObsTextInfoType::Error);
}

#[test]
fn test_obs_number_type_values() {
    assert_eq!(ObsNumberType::Slider, ObsNumberType::Slider);
    assert_ne!(ObsNumberType::Slider, ObsNumberType::Scroller);
}

#[test]
fn test_obs_path_type_values() {
    assert_eq!(ObsPathType::Directory, ObsPathType::Directory);
    assert_ne!(ObsPathType::Directory, ObsPathType::File);
}

#[test]
fn test_obs_editable_list_type_values() {
    assert_eq!(ObsEditableListType::Files, ObsEditableListType::Files);
    assert_ne!(ObsEditableListType::Files, ObsEditableListType::Strings);
}

#[test]
fn test_obs_group_type_values() {
    assert_eq!(ObsGroupType::Normal, ObsGroupType::Normal);
    assert_ne!(ObsGroupType::Normal, ObsGroupType::Checkable);
}

#[test]
fn test_obs_button_type_values() {
    assert_eq!(ObsButtonType::Default, ObsButtonType::Default);
    assert_ne!(ObsButtonType::Default, ObsButtonType::Url);
}

#[test]
fn test_all_enums_are_copy() {
    let prop = ObsPropertyType::Bool;
    let _copy1 = prop;
    let _copy2 = prop;
}

#[test]
fn property_type_raw_values() {
    assert_eq!(ObsPropertyType::Invalid.to_raw(), 0);
    assert_eq!(ObsPropertyType::ColorAlpha.to_raw(), 13);
    assert_eq!(ObsPropertyType::from_raw(8), Some(ObsPropertyType::Button));
    assert_eq!(ObsPropertyType::from_raw(14), None);
    for v in 0..14u32 {
        assert_eq!(ObsPropertyType::from_raw(v).unwrap().to_raw(), v);
    }
}

#[test]
fn other_property_enum_values() {
    assert_eq!(ObsComboFormat::Bool.to_raw(), 4);
    assert_eq!(ObsComboType::from_raw(3), Some(ObsComboType::Radio));
    assert_eq!(ObsTextType::Info.to_raw(), 3);
    assert_eq!(ObsTextInfoType::from_raw(3), None);
    assert_eq!(ObsNumberType::Slider.to_raw(), 1);
    assert_eq!(ObsPathType::from_raw(1), Some(ObsPathType::FileSave));
    assert_eq!(ObsEditableListType::FilesAndUrls.to_raw(), 2);
    assert_eq!(ObsGroupType::from_raw(0), Some(ObsGroupType::Invalid));
    assert_eq!(ObsButtonType::Url.to_raw(), 1);
    assert_eq!(ObsButtonType::from_raw(2), None);
}

#[test]
fn optional_text_drops_empty() {
    assert_eq!(optional_text(None), None);
    assert_eq!(optional_text(Some(String::new())), None);
    assert_eq!(optional_text(Some("url".to_string())), Some("url".to_string()));
}
