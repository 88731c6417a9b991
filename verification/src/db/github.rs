//! Result records and the per-language repository set.

use crate::db::idb::{snapshot_key, snapshot_key_of, CacheFailure};
use crate::text::{decimal, decimal_of, joined};
use vstd::prelude::*;

verus! {

/// Account that owns a repository.
#[derive(Debug)]
pub struct Owner {
    pub site_admin: Option<bool>,
}

impl Clone for Owner {
    fn clone(&self) -> (r: Self)
        ensures
            r == *self,
    {
        Owner { site_admin: self.site_admin }
    }
}

impl View for Owner {
    type V = Owner;

    open spec fn view(&self) -> Owner {
        *self
    }
}

impl DeepView for Owner {
    type V = Owner;

    open spec fn deep_view(&self) -> Owner {
        *self
    }
}

/// License metadata of a repository.
#[derive(Debug)]
pub struct License {
    pub node_id: Option<String>,
    pub name: Option<String>,
}

/// What a `License` holds, as mathematical values.
pub struct LicenseView {
    pub node_id: Option<Seq<char>>,
    pub name: Option<Seq<char>>,
}

impl DeepView for License {
    type V = LicenseView;

    open spec fn deep_view(&self) -> LicenseView {
        LicenseView { node_id: self.node_id.deep_view(), name: self.name.deep_view() }
    }
}

impl View for License {
    type V = LicenseView;

    open spec fn view(&self) -> LicenseView {
        self.deep_view()
    }
}

impl Clone for License {
    fn clone(&self) -> (r: Self)
        ensures
            r@ == self@,
    {
        License { node_id: self.node_id.clone(), name: self.name.clone() }
    }
}

/// One repository as the search service reports it. Only the full name, the
/// description, the language and the license take part in any decision; the
/// other fields are carried through unchanged.
#[derive(Debug)]
pub struct Repository {
    pub id: Option<u64>,
    pub node_id: Option<String>,
    pub name: Option<String>,
    pub full_name: Option<String>,
    pub private: Option<bool>,
    pub owner: Option<Owner>,
    pub html_url: Option<String>,
    pub description: Option<String>,
    pub fork: Option<bool>,
    pub url: Option<String>,
    pub forks_url: Option<String>,
    pub keys_url: Option<String>,
    pub collaborators_url: Option<String>,
    pub teams_url: Option<String>,
    pub hooks_url: Option<String>,
    pub issue_events_url: Option<String>,
    pub events_url: Option<String>,
    pub assignees_url: Option<String>,
    pub branches_url: Option<String>,
    pub tags_url: Option<String>,
    pub blobs_url: Option<String>,
    pub git_tags_url: Option<String>,
    pub git_refs_url: Option<String>,
    pub trees_url: Option<String>,
    pub statuses_url: Option<String>,
    pub languages_url: Option<String>,
    pub stargazers_url: Option<String>,
    pub contributors_url: Option<String>,
    pub subscribers_url: Option<String>,
    pub subscription_url: Option<String>,
    pub commits_url: Option<String>,
    pub git_commits_url: Option<String>,
    pub comments_url: Option<String>,
    pub issue_comment_url: Option<String>,
    pub contents_url: Option<String>,
    pub compare_url: Option<String>,
    pub merges_url: Option<String>,
    pub archive_url: Option<String>,
    pub downloads_url: Option<String>,
    pub issues_url: Option<String>,
    pub pulls_url: Option<String>,
    pub milestones_url: Option<String>,
    pub notifications_url: Option<String>,
    pub labels_url: Option<String>,
    pub releases_url: Option<String>,
    pub deployments_url: Option<String>,
    pub created_at: Option<String>,
    pub updated_at: Option<String>,
    pub pushed_at: Option<String>,
    pub git_url: Option<String>,
    pub ssh_url: Option<String>,
    pub clone_url: Option<String>,
    pub svn_url: Option<String>,
    pub homepage: Option<String>,
    pub size: Option<u64>,
    pub stargazers_count: Option<u64>,
    pub watchers_count: Option<u64>,
    pub language: Option<String>,
    pub has_issues: Option<bool>,
    pub has_projects: Option<bool>,
    pub has_downloads: Option<bool>,
    pub has_wiki: Option<bool>,
    pub has_pages: Option<bool>,
    pub has_discussions: Option<bool>,
    pub forks_count: Option<u64>,
    pub mirror_url: Option<String>,
    pub archived: Option<bool>,
    pub disabled: Option<bool>,
    pub open_issues_count: Option<u64>,
    pub license: Option<License>,
    pub allow_forking: Option<bool>,
    pub is_template: Option<bool>,
    pub web_commit_signoff_required: Option<bool>,
    pub topics: Option<Vec<String>>,
    pub visibility: Option<String>,
    pub forks: Option<u64>,
    pub open_issues: Option<u64>,
    pub watchers: Option<u64>,
    pub default_branch: Option<String>,
    /// Relevance score, as the bit pattern of a 64-bit float.
    pub score: Option<u64>,
}

/// What a `Repository` holds, as mathematical values.
pub struct RepositoryView {
    pub id: Option<u64>,
    pub node_id: Option<Seq<char>>,
    pub name: Option<Seq<char>>,
    pub full_name: Option<Seq<char>>,
    pub private: Option<bool>,
    pub owner: Option<Owner>,
    pub html_url: Option<Seq<char>>,
    pub description: Option<Seq<char>>,
    pub fork: Option<bool>,
    pub url: Option<Seq<char>>,
    pub forks_url: Option<Seq<char>>,
    pub keys_url: Option<Seq<char>>,
    pub collaborators_url: Option<Seq<char>>,
    pub teams_url: Option<Seq<char>>,
    pub hooks_url: Option<Seq<char>>,
    pub issue_events_url: Option<Seq<char>>,
    pub events_url: Option<Seq<char>>,
    pub assignees_url: Option<Seq<char>>,
    pub branches_url: Option<Seq<char>>,
    pub tags_url: Option<Seq<char>>,
    pub blobs_url: Option<Seq<char>>,
    pub git_tags_url: Option<Seq<char>>,
    pub git_refs_url: Option<Seq<char>>,
    pub trees_url: Option<Seq<char>>,
    pub statuses_url: Option<Seq<char>>,
    pub languages_url: Option<Seq<char>>,
    pub stargazers_url: Option<Seq<char>>,
    pub contributors_url: Option<Seq<char>>,
    pub subscribers_url: Option<Seq<char>>,
    pub subscription_url: Option<Seq<char>>,
    pub commits_url: Option<Seq<char>>,
    pub git_commits_url: Option<Seq<char>>,
    pub comments_url: Option<Seq<char>>,
    pub issue_comment_url: Option<Seq<char>>,
    pub contents_url: Option<Seq<char>>,
    pub compare_url: Option<Seq<char>>,
    pub merges_url: Option<Seq<char>>,
    pub archive_url: Option<Seq<char>>,
    pub downloads_url: Option<Seq<char>>,
    pub issues_url: Option<Seq<char>>,
    pub pulls_url: Option<Seq<char>>,
    pub milestones_url: Option<Seq<char>>,
    pub notifications_url: Option<Seq<char>>,
    pub labels_url: Option<Seq<char>>,
    pub releases_url: Option<Seq<char>>,
    pub deployments_url: Option<Seq<char>>,
    pub created_at: Option<Seq<char>>,
    pub updated_at: Option<Seq<char>>,
    pub pushed_at: Option<Seq<char>>,
    pub git_url: Option<Seq<char>>,
    pub ssh_url: Option<Seq<char>>,
    pub clone_url: Option<Seq<char>>,
    pub svn_url: Option<Seq<char>>,
    pub homepage: Option<Seq<char>>,
    pub size: Option<u64>,
    pub stargazers_count: Option<u64>,
    pub watchers_count: Option<u64>,
    pub language: Option<Seq<char>>,
    pub has_issues: Option<bool>,
    pub has_projects: Option<bool>,
    pub has_downloads: Option<bool>,
    pub has_wiki: Option<bool>,
    pub has_pages: Option<bool>,
    pub has_discussions: Option<bool>,
    pub forks_count: Option<u64>,
    pub mirror_url: Option<Seq<char>>,
    pub archived: Option<bool>,
    pub disabled: Option<bool>,
    pub open_issues_count: Option<u64>,
    pub license: Option<LicenseView>,
    pub allow_forking: Option<bool>,
    pub is_template: Option<bool>,
    pub web_commit_signoff_required: Option<bool>,
    pub topics: Option<Seq<Seq<char>>>,
    pub visibility: Option<Seq<char>>,
    pub forks: Option<u64>,
    pub open_issues: Option<u64>,
    pub watchers: Option<u64>,
    pub default_branch: Option<Seq<char>>,
    pub score: Option<u64>,
}

impl DeepView for Repository {
    type V = RepositoryView;

    open spec fn deep_view(&self) -> RepositoryView {
        RepositoryView {
            id: self.id,
            node_id: self.node_id.deep_view(),
            name: self.name.deep_view(),
            full_name: self.full_name.deep_view(),
            private: self.private,
            owner: self.owner.deep_view(),
            html_url: self.html_url.deep_view(),
            description: self.description.deep_view(),
            fork: self.fork,
            url: self.url.deep_view(),
            forks_url: self.forks_url.deep_view(),
            keys_url: self.keys_url.deep_view(),
            collaborators_url: self.collaborators_url.deep_view(),
            teams_url: self.teams_url.deep_view(),
            hooks_url: self.hooks_url.deep_view(),
            issue_events_url: self.issue_events_url.deep_view(),
            events_url: self.events_url.deep_view(),
            assignees_url: self.assignees_url.deep_view(),
            branches_url: self.branches_url.deep_view(),
            tags_url: self.tags_url.deep_view(),
            blobs_url: self.blobs_url.deep_view(),
            git_tags_url: self.git_tags_url.deep_view(),
            git_refs_url: self.git_refs_url.deep_view(),
            trees_url: self.trees_url.deep_view(),
            statuses_url: self.statuses_url.deep_view(),
            languages_url: self.languages_url.deep_view(),
            stargazers_url: self.stargazers_url.deep_view(),
            contributors_url: self.contributors_url.deep_view(),
            subscribers_url: self.subscribers_url.deep_view(),
            subscription_url: self.subscription_url.deep_view(),
            commits_url: self.commits_url.deep_view(),
            git_commits_url: self.git_commits_url.deep_view(),
            comments_url: self.comments_url.deep_view(),
            issue_comment_url: self.issue_comment_url.deep_view(),
            contents_url: self.contents_url.deep_view(),
            compare_url: self.compare_url.deep_view(),
            merges_url: self.merges_url.deep_view(),
            archive_url: self.archive_url.deep_view(),
            downloads_url: self.downloads_url.deep_view(),
            issues_url: self.issues_url.deep_view(),
            pulls_url: self.pulls_url.deep_view(),
            milestones_url: self.milestones_url.deep_view(),
            notifications_url: self.notifications_url.deep_view(),
            labels_url: self.labels_url.deep_view(),
            releases_url: self.releases_url.deep_view(),
            deployments_url: self.deployments_url.deep_view(),
            created_at: self.created_at.deep_view(),
            updated_at: self.updated_at.deep_view(),
            pushed_at: self.pushed_at.deep_view(),
            git_url: self.git_url.deep_view(),
            ssh_url: self.ssh_url.deep_view(),
            clone_url: self.clone_url.deep_view(),
            svn_url: self.svn_url.deep_view(),
            homepage: self.homepage.deep_view(),
            size: self.size,
            stargazers_count: self.stargazers_count,
            watchers_count: self.watchers_count,
            language: self.language.deep_view(),
            has_issues: self.has_issues,
            has_projects: self.has_projects,
            has_downloads: self.has_downloads,
            has_wiki: self.has_wiki,
            has_pages: self.has_pages,
            has_discussions: self.has_discussions,
            forks_count: self.forks_count,
            mirror_url: self.mirror_url.deep_view(),
            archived: self.archived,
            disabled: self.disabled,
            open_issues_count: self.open_issues_count,
            license: self.license.deep_view(),
            allow_forking: self.allow_forking,
            is_template: self.is_template,
            web_commit_signoff_required: self.web_commit_signoff_required,
            topics: self.topics.deep_view(),
            visibility: self.visibility.deep_view(),
            forks: self.forks,
            open_issues: self.open_issues,
            watchers: self.watchers,
            default_branch: self.default_branch.deep_view(),
            score: self.score,
        }
    }
}

impl View for Repository {
    type V = RepositoryView;

    open spec fn view(&self) -> RepositoryView {
        self.deep_view()
    }
}

/// A copy of an optional text.
fn copy_text(t: &Option<String>) -> (r: Option<String>)
    ensures
        r.deep_view() == t.deep_view(),
{
    t.clone()
}

/// A copy of an optional list of texts.
fn copy_texts(t: &Option<Vec<String>>) -> (r: Option<Vec<String>>)
    ensures
        r.deep_view() == t.deep_view(),
{
    t.clone()
}

/// A copy of an optional owner.
fn copy_owner(o: &Option<Owner>) -> (r: Option<Owner>)
    ensures
        r == *o,
{
    o.clone()
}

/// A copy of an optional license.
fn copy_license(l: &Option<License>) -> (r: Option<License>)
    ensures
        r.deep_view() == l.deep_view(),
{
    l.clone()
}

impl Clone for Repository {
    fn clone(&self) -> (r: Self)
        ensures
            r@ == self@,
    {
        Repository {
            id: self.id,
            node_id: copy_text(&self.node_id),
            name: copy_text(&self.name),
            full_name: copy_text(&self.full_name),
            private: self.private,
            owner: copy_owner(&self.owner),
            html_url: copy_text(&self.html_url),
            description: copy_text(&self.description),
            fork: self.fork,
            url: copy_text(&self.url),
            forks_url: copy_text(&self.forks_url),
            keys_url: copy_text(&self.keys_url),
            collaborators_url: copy_text(&self.collaborators_url),
            teams_url: copy_text(&self.teams_url),
            hooks_url: copy_text(&self.hooks_url),
            issue_events_url: copy_text(&self.issue_events_url),
            events_url: copy_text(&self.events_url),
            assignees_url: copy_text(&self.assignees_url),
            branches_url: copy_text(&self.branches_url),
            tags_url: copy_text(&self.tags_url),
            blobs_url: copy_text(&self.blobs_url),
            git_tags_url: copy_text(&self.git_tags_url),
            git_refs_url: copy_text(&self.git_refs_url),
            trees_url: copy_text(&self.trees_url),
            statuses_url: copy_text(&self.statuses_url),
            languages_url: copy_text(&self.languages_url),
            stargazers_url: copy_text(&self.stargazers_url),
            contributors_url: copy_text(&self.contributors_url),
            subscribers_url: copy_text(&self.subscribers_url),
            subscription_url: copy_text(&self.subscription_url),
            commits_url: copy_text(&self.commits_url),
            git_commits_url: copy_text(&self.git_commits_url),
            comments_url: copy_text(&self.comments_url),
            issue_comment_url: copy_text(&self.issue_comment_url),
            contents_url: copy_text(&self.contents_url),
            compare_url: copy_text(&self.compare_url),
            merges_url: copy_text(&self.merges_url),
            archive_url: copy_text(&self.archive_url),
            downloads_url: copy_text(&self.downloads_url),
            issues_url: copy_text(&self.issues_url),
            pulls_url: copy_text(&self.pulls_url),
            milestones_url: copy_text(&self.milestones_url),
            notifications_url: copy_text(&self.notifications_url),
            labels_url: copy_text(&self.labels_url),
            releases_url: copy_text(&self.releases_url),
            deployments_url: copy_text(&self.deployments_url),
            created_at: copy_text(&self.created_at),
            updated_at: copy_text(&self.updated_at),
            pushed_at: copy_text(&self.pushed_at),
            git_url: copy_text(&self.git_url),
            ssh_url: copy_text(&self.ssh_url),
            clone_url: copy_text(&self.clone_url),
            svn_url: copy_text(&self.svn_url),
            homepage: copy_text(&self.homepage),
            size: self.size,
            stargazers_count: self.stargazers_count,
            watchers_count: self.watchers_count,
            language: copy_text(&self.language),
            has_issues: self.has_issues,
            has_projects: self.has_projects,
            has_downloads: self.has_downloads,
            has_wiki: self.has_wiki,
            has_pages: self.has_pages,
            has_discussions: self.has_discussions,
            forks_count: self.forks_count,
            mirror_url: copy_text(&self.mirror_url),
            archived: self.archived,
            disabled: self.disabled,
            open_issues_count: self.open_issues_count,
            license: copy_license(&self.license),
            allow_forking: self.allow_forking,
            is_template: self.is_template,
            web_commit_signoff_required: self.web_commit_signoff_required,
            topics: copy_texts(&self.topics),
            visibility: copy_text(&self.visibility),
            forks: self.forks,
            open_issues: self.open_issues,
            watchers: self.watchers,
            default_branch: copy_text(&self.default_branch),
            score: self.score,
        }
    }
}


impl RepositoryView {
    /// The record whose every field is absent.
    pub open spec fn blank() -> RepositoryView {
        RepositoryView {
            id: None,
            node_id: None,
            name: None,
            full_name: None,
            private: None,
            owner: None,
            html_url: None,
            description: None,
            fork: None,
            url: None,
            forks_url: None,
            keys_url: None,
            collaborators_url: None,
            teams_url: None,
            hooks_url: None,
            issue_events_url: None,
            events_url: None,
            assignees_url: None,
            branches_url: None,
            tags_url: None,
            blobs_url: None,
            git_tags_url: None,
            git_refs_url: None,
            trees_url: None,
            statuses_url: None,
            languages_url: None,
            stargazers_url: None,
            contributors_url: None,
            subscribers_url: None,
            subscription_url: None,
            commits_url: None,
            git_commits_url: None,
            comments_url: None,
            issue_comment_url: None,
            contents_url: None,
            compare_url: None,
            merges_url: None,
            archive_url: None,
            downloads_url: None,
            issues_url: None,
            pulls_url: None,
            milestones_url: None,
            notifications_url: None,
            labels_url: None,
            releases_url: None,
            deployments_url: None,
            created_at: None,
            updated_at: None,
            pushed_at: None,
            git_url: None,
            ssh_url: None,
            clone_url: None,
            svn_url: None,
            homepage: None,
            size: None,
            stargazers_count: None,
            watchers_count: None,
            language: None,
            has_issues: None,
            has_projects: None,
            has_downloads: None,
            has_wiki: None,
            has_pages: None,
            has_discussions: None,
            forks_count: None,
            mirror_url: None,
            archived: None,
            disabled: None,
            open_issues_count: None,
            license: None,
            allow_forking: None,
            is_template: None,
            web_commit_signoff_required: None,
            topics: None,
            visibility: None,
            forks: None,
            open_issues: None,
            watchers: None,
            default_branch: None,
            score: None,
        }
    }
}

impl Default for Repository {
    fn default() -> (r: Self)
        ensures
            r@ == RepositoryView::blank(),
    {
        Repository {
            id: None,
            node_id: None,
            name: None,
            full_name: None,
            private: None,
            owner: None,
            html_url: None,
            description: None,
            fork: None,
            url: None,
            forks_url: None,
            keys_url: None,
            collaborators_url: None,
            teams_url: None,
            hooks_url: None,
            issue_events_url: None,
            events_url: None,
            assignees_url: None,
            branches_url: None,
            tags_url: None,
            blobs_url: None,
            git_tags_url: None,
            git_refs_url: None,
            trees_url: None,
            statuses_url: None,
            languages_url: None,
            stargazers_url: None,
            contributors_url: None,
            subscribers_url: None,
            subscription_url: None,
            commits_url: None,
            git_commits_url: None,
            comments_url: None,
            issue_comment_url: None,
            contents_url: None,
            compare_url: None,
            merges_url: None,
            archive_url: None,
            downloads_url: None,
            issues_url: None,
            pulls_url: None,
            milestones_url: None,
            notifications_url: None,
            labels_url: None,
            releases_url: None,
            deployments_url: None,
            created_at: None,
            updated_at: None,
            pushed_at: None,
            git_url: None,
            ssh_url: None,
            clone_url: None,
            svn_url: None,
            homepage: None,
            size: None,
            stargazers_count: None,
            watchers_count: None,
            language: None,
            has_issues: None,
            has_projects: None,
            has_downloads: None,
            has_wiki: None,
            has_pages: None,
            has_discussions: None,
            forks_count: None,
            mirror_url: None,
            archived: None,
            disabled: None,
            open_issues_count: None,
            license: None,
            allow_forking: None,
            is_template: None,
            web_commit_signoff_required: None,
            topics: None,
            visibility: None,
            forks: None,
            open_issues: None,
            watchers: None,
            default_branch: None,
            score: None,
        }
    }
}


/// The body of a search answer.
#[derive(Debug)]
pub struct SearchResponse {
    pub total_count: Option<u64>,
    pub incomplete_results: Option<bool>,
    pub items: Vec<Repository>,
}

/// The views of a sequence of records, in order.
pub open spec fn views(records: Seq<Repository>) -> Seq<RepositoryView> {
    records.map_values(|r: Repository| r@)
}

/// True when the record names a license.
pub open spec fn licensed(r: RepositoryView) -> bool {
    r.license is Some
}

/// The records of `items` that name a license, in the order in which they stand.
pub open spec fn licensed_only(items: Seq<RepositoryView>) -> Seq<RepositoryView> {
    items.filter(|r: RepositoryView| licensed(r))
}

/// Appending a record appends its view.
pub proof fn lemma_views_push(records: Seq<Repository>, r: Repository)
    ensures
        views(records.push(r)) == views(records).push(r@),
{
    assert(views(records.push(r)) =~= views(records).push(r@));
}

/// The views of a prefix grow by one view per record.
pub proof fn lemma_views_take_next(records: Seq<Repository>, i: int)
    requires
        0 <= i < records.len(),
    ensures
        views(records.take(i + 1)) == views(records.take(i)).push(records[i]@),
{
    assert(records.take(i + 1) =~= records.take(i).push(records[i]));
    lemma_views_push(records.take(i), records[i]);
}

/// A copy of a list of records.
pub fn copy_records(records: &Vec<Repository>) -> (r: Vec<Repository>)
    ensures
        views(r@) == views(records@),
{
    let mut out: Vec<Repository> = Vec::new();
    let mut i: usize = 0;
    while i < records.len()
        invariant
            i <= records.len(),
            views(out@) == views(records@.take(i as int)),
        decreases records.len() - i,
    {
        proof {
            lemma_views_take_next(records@, i as int);
            lemma_views_push(out@, records[i as int]);
        }
        let copy = records[i].clone();
        proof {
            lemma_views_push(out@, copy);
        }
        out.push(copy);
        i += 1;
    }
    assert(records@.take(records.len() as int) =~= records@);
    out
}

/// Drops every record that names no license and keeps the others in order.
pub fn retain_licensed(items: &Vec<Repository>) -> (kept: Vec<Repository>)
    ensures
        views(kept@) == licensed_only(views(items@)),
{
    let mut kept: Vec<Repository> = Vec::new();
    let mut i: usize = 0;
    assert(views(items@.take(0)) =~= Seq::<RepositoryView>::empty());
    assert(licensed_only(Seq::<RepositoryView>::empty()) =~= Seq::<RepositoryView>::empty()) by {
        reveal(Seq::filter);
    }
    while i < items.len()
        invariant
            i <= items.len(),
            views(kept@) == licensed_only(views(items@.take(i as int))),
        decreases items.len() - i,
    {
        proof {
            lemma_views_take_next(items@, i as int);
            views(items@.take(i as int)).lemma_filter_push(
                items[i as int]@,
                |r: RepositoryView| licensed(r),
            );
        }
        if items[i].license.is_some() {
            let copy = items[i].clone();
            proof {
                lemma_views_push(kept@, copy);
            }
            kept.push(copy);
        }
        i += 1;
    }
    assert(items@.take(items.len() as int) =~= items@);
    kept
}

/// A request to the search service, as plain values.
#[derive(Debug)]
pub struct FetchRequest {
    pub method: String,
    pub url: String,
    pub body: Vec<u8>,
    pub headers: Vec<(String, String)>,
}

/// How a request to the search service ended.
#[derive(Debug)]
pub enum FetchOutcome {
    /// The request did not complete; the text says why.
    RequestFailed(String),
    /// The service answered with a status other than success.
    HttpError { status: u16, status_text: String },
    /// The answer's body is not a search answer; the text says why.
    ParseFailed(String),
    /// The answer's body, parsed.
    Parsed(SearchResponse),
}

/// A snapshot to store in the cache.
#[derive(Debug)]
pub struct SnapshotWrite {
    pub language: String,
    pub key: String,
    pub records: Vec<Repository>,
}

/// The place of a snapshot in the cache.
#[derive(Debug)]
pub struct SnapshotRef {
    pub language: String,
    pub key: String,
}

/// The address of the search for the most starred repositories of a
/// language: one page of at most 100, most stars first.
pub open spec fn search_url_of(language: Seq<char>) -> Seq<char> {
    "https://api.github.com/search/repositories?q=language:"@ + language
        + "&sort=stars&order=desc&per_page=100"@
}

/// A `FetchRequest` as mathematical values.
pub struct FetchRequestView {
    pub method: Seq<char>,
    pub url: Seq<char>,
    pub body: Seq<u8>,
    pub headers: Seq<(Seq<char>, Seq<char>)>,
}

impl DeepView for FetchRequest {
    type V = FetchRequestView;

    open spec fn deep_view(&self) -> FetchRequestView {
        FetchRequestView {
            method: self.method@,
            url: self.url@,
            body: self.body@,
            headers: self.headers.deep_view(),
        }
    }
}

impl View for FetchRequest {
    type V = FetchRequestView;

    open spec fn view(&self) -> FetchRequestView {
        self.deep_view()
    }
}

/// The search request for `language`.
pub open spec fn search_request_of(language: Seq<char>) -> FetchRequestView {
    FetchRequestView {
        method: "GET"@,
        url: search_url_of(language),
        body: Seq::empty(),
        headers: seq![("User-Agent"@, "rust-egui-ehttp-app"@)],
    }
}

/// True when the request is the search for `language`.
pub open spec fn is_search_for(request: FetchRequest, language: Seq<char>) -> bool {
    request@ == search_request_of(language)
}

/// A `SnapshotWrite` as mathematical values.
pub struct SnapshotWriteView {
    pub language: Seq<char>,
    pub key: Seq<char>,
    pub records: Seq<RepositoryView>,
}

impl DeepView for SnapshotWrite {
    type V = SnapshotWriteView;

    open spec fn deep_view(&self) -> SnapshotWriteView {
        SnapshotWriteView {
            language: self.language@,
            key: self.key@,
            records: views(self.records@),
        }
    }
}

impl View for SnapshotWrite {
    type V = SnapshotWriteView;

    open spec fn view(&self) -> SnapshotWriteView {
        self.deep_view()
    }
}

/// A `SnapshotRef` as mathematical values.
pub struct SnapshotRefView {
    pub language: Seq<char>,
    pub key: Seq<char>,
}

impl DeepView for SnapshotRef {
    type V = SnapshotRefView;

    open spec fn deep_view(&self) -> SnapshotRefView {
        SnapshotRefView { language: self.language@, key: self.key@ }
    }
}

impl View for SnapshotRef {
    type V = SnapshotRefView;

    open spec fn view(&self) -> SnapshotRefView {
        self.deep_view()
    }
}

/// The place of the snapshot of `language`.
pub open spec fn snapshot_of(language: Seq<char>) -> SnapshotRefView {
    SnapshotRefView { language, key: snapshot_key_of(language) }
}

/// Builds the search request for `language`.
pub fn search_request(language: &str) -> (request: FetchRequest)
    ensures
        is_search_for(request, language@),
{
    let url = joined("https://api.github.com/search/repositories?q=language:", language).concat(
        "&sort=stars&order=desc&per_page=100",
    );
    let mut headers: Vec<(String, String)> = Vec::new();
    headers.push((String::from_str("User-Agent"), String::from_str("rust-egui-ehttp-app")));
    let request = FetchRequest { method: String::from_str("GET"), url, body: Vec::new(), headers };
    assert(request@.headers =~= search_request_of(language@).headers);
    assert(request@.body =~= search_request_of(language@).body);
    request
}

/// The message recorded for a fetch that gave no records; `None` for one
/// that gave some.
pub open spec fn fetch_failure_of(outcome: FetchOutcome) -> Option<Seq<char>> {
    match outcome {
        FetchOutcome::RequestFailed(why) => Some("Request failed: "@ + why@),
        FetchOutcome::HttpError { status, status_text } => Some(
            "HTTP Error: "@ + decimal_of(status as nat) + " - "@ + status_text@,
        ),
        FetchOutcome::ParseFailed(why) => Some("Failed to parse JSON: "@ + why@),
        FetchOutcome::Parsed(_) => None,
    }
}

/// The message for a fetch that gave no records; `None` for one that gave
/// some.
pub fn fetch_failure(outcome: &FetchOutcome) -> (message: Option<String>)
    ensures
        message.deep_view() == fetch_failure_of(*outcome),
{
    match outcome {
        FetchOutcome::RequestFailed(why) => Some(joined("Request failed: ", why.as_str())),
        FetchOutcome::HttpError { status, status_text } => {
            let code = decimal(*status as u64);
            Some(
                joined("HTTP Error: ", code.as_str()).concat(" - ").concat(status_text.as_str()),
            )
        },
        FetchOutcome::ParseFailed(why) => Some(joined("Failed to parse JSON: ", why.as_str())),
        FetchOutcome::Parsed(_) => None,
    }
}

/// The message recorded when the cache fails during `doing`.
pub open spec fn cache_failure_of(doing: Seq<char>, failure: CacheFailure) -> Seq<char> {
    match failure {
        CacheFailure::Open(why) => "Failed to open IndexedDB: "@ + why@,
        CacheFailure::Access(why) => "Failed to "@ + doing + " IndexedDB: "@ + why@,
    }
}

/// The message for a cache failure during `doing` ("store in", "load
/// from", "clear").
pub fn cache_failure(doing: &str, failure: &CacheFailure) -> (message: String)
    ensures
        message@ == cache_failure_of(doing@, *failure),
{
    match failure {
        CacheFailure::Open(why) => joined("Failed to open IndexedDB: ", why.as_str()),
        CacheFailure::Access(why) => joined("Failed to ", doing).concat(" IndexedDB: ").concat(
            why.as_str(),
        ),
    }
}

/// The repository set of the selected language: the records last loaded or
/// fetched, the last failure, and whether a fetch is under way.
pub struct GithubDb {
    repos: Vec<Repository>,
    error: Option<String>,
    is_loading: bool,
    language: String,
}

/// What a `GithubDb` holds, as mathematical values.
pub struct GithubDbView {
    pub repos: Seq<RepositoryView>,
    pub error: Option<Seq<char>>,
    pub is_loading: bool,
    pub language: Seq<char>,
}

impl View for GithubDb {
    type V = GithubDbView;

    closed spec fn view(&self) -> GithubDbView {
        GithubDbView {
            repos: views(self.repos@),
            error: self.error.deep_view(),
            is_loading: self.is_loading,
            language: self.language@,
        }
    }
}

impl GithubDb {
    /// An empty set for the language "Rust".
    pub fn new() -> (db: Self)
        ensures
            db@ == (GithubDbView {
                repos: Seq::empty(),
                error: None,
                is_loading: false,
                language: "Rust"@,
            }),
    {
        let db = GithubDb {
            repos: Vec::new(),
            error: None,
            is_loading: false,
            language: String::from_str("Rust"),
        };
        assert(views(db.repos@) =~= Seq::<RepositoryView>::empty());
        db
    }

    /// Selects a language.
    pub fn set_language(&mut self, lang: &str)
        ensures
            final(self)@ == (GithubDbView { language: lang@, ..old(self)@ }),
    {
        self.language = String::from_str(lang);
    }

    /// The selected language.
    pub fn get_language(&self) -> (lang: String)
        ensures
            lang@ == self@.language,
    {
        self.language.clone()
    }

    /// The records last loaded or fetched.
    pub fn get_repos(&self) -> (repos: &Vec<Repository>)
        ensures
            views(repos@) == self@.repos,
    {
        &self.repos
    }

    /// True while a fetch is under way.
    pub fn is_loading(&self) -> (loading: bool)
        ensures
            loading == self@.is_loading,
    {
        self.is_loading
    }

    /// The last failure recorded, if any.
    pub fn last_error(&self) -> (error: Option<String>)
        ensures
            error.deep_view() == self@.error,
    {
        crate::text::copy_of_option(&self.error)
    }

    /// The place of the selected language's snapshot in the cache.
    pub fn snapshot(&self) -> (place: SnapshotRef)
        ensures
            place@ == snapshot_of(self@.language),
    {
        SnapshotRef { language: self.language.clone(), key: snapshot_key(self.language.as_str()) }
    }

    /// Starts the clearing of the selected language's snapshot: names the
    /// snapshot that the host is to delete.
    pub fn clear_indexeddb(&self) -> (place: SnapshotRef)
        ensures
            place@ == snapshot_of(self@.language),
    {
        self.snapshot()
    }

    /// Takes the cache's answer to the delete: a failure is recorded, and
    /// nothing else changes.
    pub fn clear_completed(&mut self, answer: &Result<(), CacheFailure>)
        ensures
            final(self)@ == recorded(old(self)@, "clear"@, *answer),
    {
        match answer {
            Ok(()) => {},
            Err(failure) => {
                self.error = Some(cache_failure("clear", failure));
            },
        }
    }

    /// Starts a sync of the selected language: marks the set as loading and
    /// builds the request that the host is to send.
    pub fn sync_and_store(&mut self) -> (request: FetchRequest)
        ensures
            final(self)@ == (GithubDbView { is_loading: true, ..old(self)@ }),
            is_search_for(request, old(self)@.language),
    {
        self.is_loading = true;
        search_request(self.language.as_str())
    }

    /// Takes the outcome of a fetch for the snapshot at `language` and `key`.
    fn absorb(&mut self, outcome: &FetchOutcome, language: String, key: String) -> (write: Option<
        SnapshotWrite,
    >)
        ensures
            final(self)@ == fetched(old(self)@, *outcome),
            write.deep_view() == written(*outcome, language@, key@),
    {
        self.is_loading = false;
        match outcome {
            FetchOutcome::Parsed(answer) => {
                let kept = retain_licensed(&answer.items);
                self.repos = copy_records(&kept);
                Some(SnapshotWrite { language, key, records: kept })
            },
            _ => {
                self.error = fetch_failure(outcome);
                None
            },
        }
    }

    /// Takes the outcome of the fetch that `sync_and_store` started. The set
    /// stops loading. Records that came are stripped of those without a
    /// license; what is left becomes the set and is handed back as the
    /// snapshot to store for the selected language. A failure is recorded,
    /// the set stays, and nothing is to be stored.
    pub fn sync_completed(&mut self, outcome: &FetchOutcome) -> (write: Option<SnapshotWrite>)
        ensures
            final(self)@ == fetched(old(self)@, *outcome),
            write.deep_view() == written(
                *outcome,
                old(self)@.language,
                snapshot_key_of(old(self)@.language),
            ),
    {
        let language = self.language.clone();
        let key = snapshot_key(self.language.as_str());
        self.absorb(outcome, language, key)
    }

    /// Starts a fetch of the Rust repositories, unless one is under way:
    /// marks the set as loading and builds the request that the host is to
    /// send. `None`, and no change, while a fetch is under way.
    pub fn fetch_repositories(&mut self) -> (request: Option<FetchRequest>)
        ensures
            final(self)@ == (GithubDbView { is_loading: true, ..old(self)@ }),
            old(self)@.is_loading ==> request is None,
            !old(self)@.is_loading ==> request is Some && is_search_for(request.unwrap(), "rust"@),
    {
        if self.is_loading {
            return None;
        }
        self.is_loading = true;
        Some(search_request("rust"))
    }

    /// Takes the outcome of the fetch that `fetch_repositories` started, as
    /// `sync_completed` does; the snapshot to store is that of "rust".
    pub fn fetch_completed(&mut self, outcome: &FetchOutcome) -> (write: Option<SnapshotWrite>)
        ensures
            final(self)@ == fetched(old(self)@, *outcome),
            write.deep_view() == written(*outcome, "rust"@, "latest_rust"@),
    {
        self.absorb(outcome, String::from_str("rust"), String::from_str("latest_rust"))
    }

    /// Takes the cache's answer to the storing of a snapshot: a failure is
    /// recorded, and nothing else changes.
    pub fn store_completed(&mut self, answer: &Result<(), CacheFailure>)
        ensures
            final(self)@ == recorded(old(self)@, "store in"@, *answer),
    {
        match answer {
            Ok(()) => {},
            Err(failure) => {
                self.error = Some(cache_failure("store in", failure));
            },
        }
    }

    /// Starts the loading of the selected language's snapshot: names the
    /// snapshot that the host is to read.
    pub fn load_from_indexeddb(&self) -> (place: SnapshotRef)
        ensures
            place@ == snapshot_of(self@.language),
    {
        self.snapshot()
    }

    /// Takes the cache's answer to the read: a snapshot becomes the set, a
    /// missing snapshot empties it, and a failure is recorded and leaves the
    /// set as it is.
    pub fn load_completed(&mut self, answer: &Result<Option<Vec<Repository>>, CacheFailure>)
        ensures
            final(self)@ == loaded(old(self)@, *answer),
    {
        match answer {
            Ok(Some(cached)) => {
                self.repos = copy_records(cached);
            },
            Ok(None) => {
                self.repos = Vec::new();
                assert(views(self.repos@) =~= Seq::<RepositoryView>::empty());
            },
            Err(failure) => {
                self.error = Some(cache_failure("load from", failure));
            },
        }
    }
}

/// The set after the cache's answer to a write during `doing`: a failure is
/// recorded, and nothing else changes.
pub open spec fn recorded(
    before: GithubDbView,
    doing: Seq<char>,
    answer: Result<(), CacheFailure>,
) -> GithubDbView {
    match answer {
        Ok(()) => before,
        Err(failure) => GithubDbView { error: Some(cache_failure_of(doing, failure)), ..before },
    }
}

/// The set after the outcome of a fetch.
pub open spec fn fetched(before: GithubDbView, outcome: FetchOutcome) -> GithubDbView {
    match outcome {
        FetchOutcome::Parsed(answer) => GithubDbView {
            repos: licensed_only(views(answer.items@)),
            is_loading: false,
            ..before
        },
        _ => GithubDbView { error: fetch_failure_of(outcome), is_loading: false, ..before },
    }
}

/// What the outcome of a fetch gives to store under `key` in the partition
/// of `language`: the licensed records that came, or nothing when none came.
pub open spec fn written(outcome: FetchOutcome, language: Seq<char>, key: Seq<char>) -> Option<
    SnapshotWriteView,
> {
    match outcome {
        FetchOutcome::Parsed(answer) => Some(
            SnapshotWriteView { language, key, records: licensed_only(views(answer.items@)) },
        ),
        _ => None,
    }
}

/// The set after the cache's answer to the read of its snapshot.
pub open spec fn loaded(
    before: GithubDbView,
    answer: Result<Option<Vec<Repository>>, CacheFailure>,
) -> GithubDbView {
    match answer {
        Ok(Some(cached)) => GithubDbView { repos: views(cached@), ..before },
        Ok(None) => GithubDbView { repos: Seq::empty(), ..before },
        Err(failure) => GithubDbView {
            error: Some(cache_failure_of("load from"@, failure)),
            ..before
        },
    }
}

} // verus!
