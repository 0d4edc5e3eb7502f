//! The records and value types that responses decode into.
mod airing_schedule;
mod anime;
mod character;
mod character_role;
mod color;
mod cover;
mod date;
mod favourites;
mod format;
mod gender;
mod image;
mod language;
mod link;
mod link_type;
mod list_activity_option;
mod manga;
mod media;
mod media_list_options;
mod media_list_type_options;
mod media_type;
mod name;
mod notification_option;
mod notification_type;
mod options;
mod person;
mod relation_type;
mod season;
mod source;
mod status;
mod studio;
mod tag;
mod title;
mod user;
mod user_format_statistic;
mod user_staff_name_language;
mod user_statistic_types;
mod user_statistics;
mod user_status_statistic;
mod user_title_language;

pub use airing_schedule::AiringSchedule;
pub use anime::Anime;
pub use character::Character;
pub use character_role::CharacterRole;
pub use color::Color;
pub use cover::{color_field, color_matches, Cover};
pub use date::Date;
pub use favourites::{Favourites, Notification};
pub use format::Format;
pub use gender::Gender;
pub use image::Image;
pub use language::Language;
pub use link::Link;
pub use link_type::LinkType;
pub use list_activity_option::ListActivityOption;
pub use manga::Manga;
pub use media::{
    character_edge_ok, character_from_edge, edges_of, kept_character_edges, kept_relation_edges,
    media_from_node, media_of_node, relation_edge_ok, relation_from_edge, relation_of_edge,
    unwrap_characters, unwrap_relations, Media, Relation,
};
pub use media_list_options::MediaListOptions;
pub use media_list_type_options::MediaListTypeOptions;
pub use media_type::MediaType;
pub use name::Name;
pub use notification_option::NotificationOption;
pub use notification_type::NotificationType;
pub use options::Options;
pub use person::Person;
pub use relation_type::RelationType;
pub use season::Season;
pub use source::Source;
pub use status::Status;
pub use studio::Studio;
pub use tag::Tag;
pub use title::Title;
pub use user::User;
pub use user_format_statistic::UserFormatStatistic;
pub use user_staff_name_language::UserStaffNameLanguage;
pub use user_statistic_types::UserStatisticTypes;
pub use user_statistics::UserStatistics;
pub use user_status_statistic::UserStatusStatistic;
pub use user_title_language::UserTitleLanguage;
