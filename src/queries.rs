//! The GraphQL documents sent for each supported entity and action.
use vstd::prelude::*;

verus! {

/// Fetches one anime by `$id`.
pub const GET_ANIME: &'static str = "query ($id: Int) {
  Media(id: $id, type: ANIME) {
    id idMal title { romaji english native userPreferred } format status description
    startDate { year month day } endDate { year month day } season seasonYear seasonInt
    episodes duration countryOfOrigin isLicensed source hashtag updatedAt
    coverImage { extraLarge large medium color } bannerImage genres synonyms
    averageScore meanScore popularity isLocked trending favourites
    tags { id name description category rank isGeneralSpoiler isMediaSpoiler isAdult userId }
    relations { edges { id relationType isMainStudio node { id idMal type
      title { romaji english native userPreferred } format status description
      coverImage { extraLarge large medium color } bannerImage averageScore meanScore siteUrl } } }
    characters { edges { role node { id
      name { first middle last full native alternative alternativeSpoiler userPreferred }
      image { large medium } description gender dateOfBirth { year month day } age bloodType
      isFavourite siteUrl favourites } } }
    isFavourite isFavouriteBlocked isAdult
    nextAiringEpisode { id airingAt timeUntilAiring episode }
    externalLinks { id url site siteId type language color icon notes isDisabled }
    streamingEpisodes { title thumbnail url site }
    siteUrl
  }
}";

/// Fetches one manga by `$id`.
pub const GET_MANGA: &'static str = "query ($id: Int) {
  Media(id: $id, type: MANGA) {
    id idMal title { romaji english native userPreferred } format status description
    startDate { year month day } endDate { year month day } chapters volumes
    countryOfOrigin isLicensed source hashtag updatedAt
    coverImage { extraLarge large medium color } bannerImage genres synonyms
    averageScore meanScore popularity isLocked trending favourites
    tags { id name description category rank isGeneralSpoiler isMediaSpoiler isAdult userId }
    relations { edges { id relationType isMainStudio node { id idMal type
      title { romaji english native userPreferred } format status description
      coverImage { extraLarge large medium color } bannerImage averageScore meanScore siteUrl } } }
    characters { edges { role node { id
      name { first middle last full native alternative alternativeSpoiler userPreferred }
      image { large medium } description gender dateOfBirth { year month day } age bloodType
      isFavourite siteUrl favourites } } }
    isFavourite isFavouriteBlocked isAdult
    externalLinks { id url site siteId type language color icon notes isDisabled }
    siteUrl
  }
}";

/// Fetches one character by `$id`.
pub const GET_CHARACTER: &'static str = "query ($id: Int) {
  Character(id: $id) {
    id name { first middle last full native alternative alternativeSpoiler userPreferred }
    image { large medium } description gender dateOfBirth { year month day } age bloodType
    isFavourite siteUrl favourites
  }
}";

/// Fetches one user by `$id` or by `$name`.
pub const GET_USER: &'static str = "query ($id: Int, $name: String) {
  User(id: $id, name: $name) {
    id name about avatar { large medium } bannerImage donatorBadge donatorTier
    isBlocked isFollower isFollowing
    options { titleLanguage displayAdultContent airingNotifications profileColor
      notificationOptions { type enabled } timezone activityMergeTime staffNameLanguage
      restrictMessagesToFollowing disabledListActivity { type disabled } }
    mediaListOptions { rowOrder
      animeList { sectionOrder splitCompletedSectionByFormat customLists advancedScoring advancedScoringEnabled }
      mangaList { sectionOrder splitCompletedSectionByFormat customLists advancedScoring advancedScoringEnabled } }
    siteUrl
    statistics {
      anime { count minutesWatched episodesWatched chaptersRead volumesRead
        formats { count minutesWatched chaptersRead mediaIds format }
        statuses { count minutesWatched chaptersRead mediaIds status } }
      manga { count minutesWatched episodesWatched chaptersRead volumesRead
        formats { count minutesWatched chaptersRead mediaIds format }
        statuses { count minutesWatched chaptersRead mediaIds status } } }
    unreadNotificationCount createdAt updatedAt
  }
}";

/// Fetches one person (staff member) by `$id`.
pub const GET_PERSON: &'static str = "query ($id: Int) {
  Staff(id: $id) {
    id name { first middle last full native alternative userPreferred } languageV2
    image { large medium } description primaryOccupations gender
    dateOfBirth { year month day } dateOfDeath { year month day } age homeTown bloodType
    isFavourite siteUrl favourites
  }
}";

/// Searches anime by `$search`, one page of `$per_page` at `$page`.
pub const SEARCH_ANIME: &'static str = "query ($search: String, $page: Int, $per_page: Int) {
  Page(page: $page, perPage: $per_page) {
    media(search: $search, type: ANIME) {
      id idMal title { romaji english native userPreferred } format status description
      coverImage { extraLarge large medium color } bannerImage siteUrl
    }
  }
}";

/// Searches manga by `$search`, one page of `$per_page` at `$page`.
pub const SEARCH_MANGA: &'static str = "query ($search: String, $page: Int, $per_page: Int) {
  Page(page: $page, perPage: $per_page) {
    media(search: $search, type: MANGA) {
      id idMal title { romaji english native userPreferred } format status description
      coverImage { extraLarge large medium color } bannerImage siteUrl
    }
  }
}";

/// Searches users by `$search`, one page of `$per_page` at `$page`.
pub const SEARCH_USER: &'static str = "query ($search: String, $page: Int, $per_page: Int) {
  Page(page: $page, perPage: $per_page) {
    users(search: $search) { id name about avatar { large medium } bannerImage siteUrl }
  }
}";

} // verus!
