use vstd::prelude::*;
use crate::config::{config_result, ConfigError, IniEntries, ini_parse, ini_value, decimal_i64, NumberSetting, ParsedConfigView};
use crate::control::{health_step, points_at, HealthActionView, has_update, needs_download, OutdatedError, main_update_steps, rollback_update_steps, UpdateActionView, burnup_seconds_spec, startup_images_spec, StartupImageView, ContainerPlan, nginx_plan_ok, app_plan_ok, texts, ports};
use crate::image::{LocalImageSearchResultView, ImageSummaryView, local_search, scan_images, scan_tags, digest_of, TagScan, ImageScan};
use crate::registry::{IGetDigestResultView, RegistryImageView, registry_digest, has_current_tag};
use crate::logs::ContainerLogView;
use crate::role::{role_for_normalised, role_name, role_tag, ContainerRole};
use crate::schedule::{update_deadline, ControlClockView, next_update_deadline, next_health_deadline, cron_text_supported, cron_next, field_count, element_start, element_end, strip_end, zero_run_end, zero_step_at};
use crate::logging::{path_join, without_underscores};
use crate::slots::{retarget_status, target_line, port_line, retarget_commands};
use crate::status::{SystemStatusView, StatusCall, apply_calls, initial_status, HealthyStatus};
use crate::text::{first_piece, second_piece, sep_index, lemma_sep_index_bounds, casefold, ascii_text};

verus! {

/// Container output leaves the log queue in the order it came in: after an
/// entry is pushed, the front is the old front (or the entry, on an empty
/// queue), and popping the front and then pushing gives the same queue as
/// pushing and then popping.
pub proof fn law_log_first_in_first_out(q: Seq<ContainerLogView>, x: ContainerLogView)
    ensures
        q.push(x).len() == q.len() + 1,
        q.push(x)[0] == (if q.len() == 0 {
            x
        } else {
            q[0]
        }),
        q.len() > 0 ==> q.push(x).drop_first() == q.drop_first().push(x),
        q.len() == 0 ==> q.push(x).drop_first() == q,
{
    if q.len() > 0 {
        assert(q.push(x).drop_first() =~= q.drop_first().push(x));
    } else {
        assert(q.push(x).drop_first() =~= q);
    }
}

/// Finishing an update undoes starting one: the status is back to what it
/// was, provided no update ran before.
pub proof fn law_update_start_finish(s: SystemStatusView)
    requires
        !s.in_update,
    ensures
        (SystemStatusView { in_update: false, ..SystemStatusView { in_update: true, ..s } }) == s,
{
}

/// Each role label names its role, and the development container runs
/// under the main container's name, so nginx treats the two alike.
pub proof fn law_role_labels()
    ensures
        role_for_normalised("main"@) == ContainerRole::Main,
        role_for_normalised("dev"@) == ContainerRole::Dev,
        role_for_normalised("rollback"@) == ContainerRole::Rollback,
        role_for_normalised("nginx"@) == ContainerRole::Nginx,
        role_for_normalised("other"@) == ContainerRole::NoRole,
        role_name(ContainerRole::Dev) == role_name(ContainerRole::Main),
        role_name(ContainerRole::Main) != role_name(ContainerRole::Rollback),
        role_name(ContainerRole::Main) != role_name(ContainerRole::Nginx),
        role_name(ContainerRole::Rollback) != role_name(ContainerRole::Nginx),
{
    reveal_strlit("main");
    reveal_strlit("dev");
    reveal_strlit("rollback");
    reveal_strlit("nginx");
    reveal_strlit("other");
    reveal_strlit("server_main");
    reveal_strlit("server_rollback");
    let words = seq!["main"@, "dev"@, "rollback"@, "nginx"@, "other"@];
    assert("main"@[0] == 'm' && "dev"@[0] == 'd' && "rollback"@[0] == 'r');
    assert("nginx"@[0] == 'n' && "other"@[0] == 'o');
    assert forall|i: int, j: int| 0 <= i < 5 && 0 <= j < 5 && i != j implies #[trigger] words[i] != #[trigger] words[j] by {
        assert(words[i][0] != words[j][0]);
    }
    assert(words[0] != words[1] && words[0] != words[2] && words[0] != words[3]);
    assert(words[4] != words[0] && words[4] != words[1] && words[4] != words[2] && words[4] != words[3]);
    assert(words[1] != words[2] && words[1] != words[3] && words[2] != words[3]);
    assert("server_main"@.len() != "server_rollback"@.len());
    assert("server_main"@[0] != "nginx"@[0]);
    assert("server_rollback"@[0] != "nginx"@[0]);
}

/// Splitting a name at a separator loses nothing before the second
/// separator: the first piece, the separator and the second piece spell the
/// start of the name.
pub proof fn law_split_reassembles(s: Seq<char>, sep: char)
    requires
        s.contains(sep),
    ensures
        s.take((first_piece(s, sep) + seq![sep] + second_piece(s, sep)).len() as int)
            == first_piece(s, sep) + seq![sep] + second_piece(s, sep),
        !first_piece(s, sep).contains(sep),
        !second_piece(s, sep).contains(sep),
{
    lemma_sep_index_bounds(s, sep);
    let i = sep_index(s, sep) as int;
    let rest = s.skip(i + 1);
    lemma_sep_index_bounds(rest, sep);
    let j = sep_index(rest, sep) as int;
    let whole = first_piece(s, sep) + seq![sep] + second_piece(s, sep);
    assert(whole.len() == i + 1 + j);
    assert forall|k: int| 0 <= k < whole.len() implies s.take(whole.len() as int)[k] == whole[k] by {
        if k > i {
            assert(rest[k - i - 1] == s[k]);
        }
    }
    assert(s.take(whole.len() as int) =~= whole);
    if first_piece(s, sep).contains(sep) {
        let k = choose|k: int| 0 <= k < first_piece(s, sep).len() && first_piece(s, sep)[k] == sep;
        assert(s[k] == sep);
    }
    if second_piece(s, sep).contains(sep) {
        let k = choose|k: int| 0 <= k < second_piece(s, sep).len() && second_piece(s, sep)[k] == sep;
        assert(rest[k] == sep);
    }
}

/// While an update runs, a health check records health and nothing else:
/// nginx's target role and address stay, and no container is touched.
pub proof fn law_health_check_waits_during_update(
    s: SystemStatusView,
    main_role: ContainerRole,
    rollback_role: ContainerRole,
    main_healthy: bool,
    rollback_healthy: bool,
)
    requires
        s.in_update,
    ensures
        health_step(s, main_role, rollback_role, main_healthy, rollback_healthy).0.nginx_target_role
            == s.nginx_target_role,
        health_step(s, main_role, rollback_role, main_healthy, rollback_healthy).0.nginx_target_ip
            == s.nginx_target_ip,
        health_step(s, main_role, rollback_role, main_healthy, rollback_healthy).1.action is Wait,
        !health_step(s, main_role, rollback_role, main_healthy, rollback_healthy).1.stop_rollback,
{
}

/// A healthy main container gets the traffic: once the check's retarget is
/// carried out (nginx present, main address known), nginx points at main,
/// and the next check with the same health has nothing left to change.
pub proof fn law_healthy_main_gets_traffic(
    s: SystemStatusView,
    main_role: ContainerRole,
    rollback_role: ContainerRole,
    rollback_healthy: bool,
)
    requires
        !s.in_update,
        s.main_ip is Some,
    ensures
        ({
            let (s1, plan) = health_step(s, main_role, rollback_role, true, rollback_healthy);
            let s2 = match plan.action {
                HealthActionView::Retarget(t) => retarget_status(s1, t),
                _ => s1,
            };
            &&& points_at(s2, main_role, s2.main_ip)
            &&& health_step(s2, main_role, rollback_role, true, rollback_healthy).1.action is Keep
            &&& health_step(s2, main_role, rollback_role, true, rollback_healthy).0 == s2
            &&& plan.stop_rollback == rollback_healthy
        }),
{
}

/// Traffic is moved to the rollback container only when main is unhealthy
/// and rollback healthy, and rollback is stopped only when both are healthy
/// (main running under the main name, rollback under the rollback name).
pub proof fn law_rollback_traffic_and_stop(
    s: SystemStatusView,
    main_role: ContainerRole,
    rollback_role: ContainerRole,
    main_healthy: bool,
    rollback_healthy: bool,
)
    requires
        role_name(main_role) == role_name(ContainerRole::Main),
        role_name(rollback_role) == role_name(ContainerRole::Rollback),
    ensures
        ({
            let (s1, plan) = health_step(s, main_role, rollback_role, main_healthy, rollback_healthy);
            &&& (plan.stop_rollback ==> main_healthy && rollback_healthy)
            &&& (s1.nginx_target_role != s.nginx_target_role && role_name(s1.nginx_target_role)
                == role_name(rollback_role) ==> !main_healthy && rollback_healthy)
        }),
{
    reveal_strlit("server_main");
    reveal_strlit("server_rollback");
    reveal_strlit("nginx");
    reveal_strlit("NONE");
    assert("server_main"@.len() != "server_rollback"@.len());
    assert("server_main"@[0] != "nginx"@[0]);
    assert("server_main"@[0] != "NONE"@[0]);
}

/// With no update running and some container healthy, traffic goes to the
/// healthy one, main first: both healths are recorded, the addresses stay,
/// and the rollback container is stopped only when both are healthy. Where
/// nginx already points at that container's role and address, nothing else
/// changes; otherwise its target role becomes that container's role and
/// nginx is retargeted at that container's address. So when main is down
/// and rollback is up, traffic fails over to rollback.
pub proof fn law_traffic_follows_health(
    s: SystemStatusView,
    main_role: ContainerRole,
    rollback_role: ContainerRole,
    main_healthy: bool,
    rollback_healthy: bool,
)
    requires
        !s.in_update,
        main_healthy || rollback_healthy,
    ensures
        ({
            let (s1, plan) = health_step(s, main_role, rollback_role, main_healthy, rollback_healthy);
            let role = if main_healthy { main_role } else { rollback_role };
            let ip = if main_healthy { s.main_ip } else { s.rollback_ip };
            let already = role_name(s.nginx_target_role) == role_name(role) && ip == Some(s.nginx_target_ip);
            &&& s1.main == (if main_healthy { HealthyStatus::Healthy } else { HealthyStatus::Unhealthy })
            &&& s1.rollback == (if rollback_healthy { HealthyStatus::Healthy } else { HealthyStatus::Unhealthy })
            &&& s1.main_ip == s.main_ip
            &&& s1.rollback_ip == s.rollback_ip
            &&& s1.nginx_target_ip == s.nginx_target_ip
            &&& s1.nginx == s.nginx
            &&& !s1.in_update
            &&& plan.stop_rollback == (main_healthy && rollback_healthy)
            &&& (plan.action is Keep <==> already)
            &&& (already ==> s1.nginx_target_role == s.nginx_target_role)
            &&& (!already ==> plan.action == HealthActionView::Retarget(ip) && s1.nginx_target_role == role)
        }),
{
}

/// When main is down and rollback is up (no update running), the check
/// leaves nginx aimed at rollback: retargeted at the rollback address with
/// the rollback role recorded, or left alone only where it already pointed
/// at the rollback role and address. It never keeps traffic on main.
pub proof fn law_failover_to_rollback(s: SystemStatusView, main_role: ContainerRole, rollback_role: ContainerRole)
    requires
        !s.in_update,
    ensures
        ({
            let (s1, plan) = health_step(s, main_role, rollback_role, false, true);
            &&& role_name(s1.nginx_target_role) == role_name(rollback_role)
            &&& (plan.action == HealthActionView::Retarget(s.rollback_ip)
                || (plan.action is Keep && s.rollback_ip == Some(s1.nginx_target_ip)))
            &&& !plan.stop_rollback
        }),
{
}

/// With neither container healthy (and no update running), both are
/// started again and traffic is sent to main.
pub proof fn law_both_unhealthy_revives(
    s: SystemStatusView,
    main_role: ContainerRole,
    rollback_role: ContainerRole,
)
    requires
        !s.in_update,
    ensures
        health_step(s, main_role, rollback_role, false, false).1.action is Revive,
        health_step(s, main_role, rollback_role, false, false).0.nginx_target_role
            == ContainerRole::Main,
{
}

/// An image whose local digest is the registry's has no update and needs no
/// pull; an image the registry does not know never has an update.
pub proof fn law_same_digest_no_update(local: LocalImageSearchResultView, remote: IGetDigestResultView)
    ensures
        local.found && local.image_digest is Some && remote.digest == local.image_digest ==> !has_update(local, remote),
        local.found && local.image_digest is Some && remote.found && remote.digest == local.image_digest ==> needs_download(remote, local) == Ok::<bool, OutdatedError>(false),
        !remote.found ==> !has_update(local, remote),
{
}

/// An image whose registry digest differs from the local one has an update
/// and is pulled; so is one the local store does not hold, unless the
/// registry's digest is the placeholder `err` that stands for a missing
/// local digest. Where the registry knows the image, whether it is pulled
/// is exactly whether it lacks a known, equal local digest.
pub proof fn law_new_digest_is_update(local: LocalImageSearchResultView, remote: IGetDigestResultView)
    ensures
        local.found && local.image_digest is Some && remote.found && remote.digest is Some
            && remote.digest != local.image_digest ==> has_update(local, remote)
            && needs_download(remote, local) == Ok::<bool, OutdatedError>(true),
        !(local.found && local.image_digest is Some) && remote.found && remote.digest is Some
            && remote.digest != Some("err"@) ==> has_update(local, remote),
        remote.found ==> needs_download(remote, local) == Ok::<bool, OutdatedError>(
            !(local.found && local.image_digest is Some && remote.digest == local.image_digest),
        ),
        !remote.found ==> needs_download(remote, local) == Err::<bool, OutdatedError>(
            OutdatedError::RegistryUnchecked,
        ),
{
}

/// The registry's digest for a tag is that of the first listed image that
/// carries the tag as a current tag, and there is none exactly where no
/// listed image carries it.
pub proof fn law_registry_digest_first_current(images: Seq<RegistryImageView>, tag: Seq<char>)
    ensures
        registry_digest(images, tag) matches Some(d) ==> exists|i: int| 0 <= i < images.len()
            && #[trigger] images[i].digest == d && has_current_tag(images[i].tags, tag)
            && forall|j: int| 0 <= j < i ==> !has_current_tag(#[trigger] images[j].tags, tag),
        registry_digest(images, tag) is None <==> forall|i: int| 0 <= i < images.len()
            ==> !has_current_tag(#[trigger] images[i].tags, tag),
    decreases images.len(),
{
    if images.len() > 0 {
        let rest = images.drop_first();
        law_registry_digest_first_current(rest, tag);
        if !has_current_tag(images[0].tags, tag) {
            if registry_digest(rest, tag) is Some {
                let i = choose|i: int| 0 <= i < rest.len() && #[trigger] rest[i].digest == registry_digest(rest, tag)->0
                    && has_current_tag(rest[i].tags, tag)
                    && forall|j: int| 0 <= j < i ==> !has_current_tag(#[trigger] rest[j].tags, tag);
                assert(images[i + 1] == rest[i]);
                assert forall|j: int| 0 <= j < i + 1 implies !has_current_tag(#[trigger] images[j].tags, tag) by {
                    if j > 0 {
                        assert(images[j] == rest[j - 1]);
                    }
                }
            } else {
                assert forall|i: int| 0 <= i < images.len() implies !has_current_tag(#[trigger] images[i].tags, tag) by {
                    if i > 0 {
                        assert(images[i] == rest[i - 1]);
                    }
                }
            }
        }
    }
}

/// Whether `tags` holds `url:tag`, read as a repository and a tag.
pub open spec fn tagged_as(tags: Seq<Seq<char>>, url: Seq<char>, tag: Seq<char>) -> bool {
    exists|j: int| 0 <= j < tags.len() && (#[trigger] tags[j]).contains(':')
        && first_piece(tags[j], ':') == url && second_piece(tags[j], ':') == tag
}

proof fn lemma_scan_tags(tags: Seq<Seq<char>>, url: Seq<char>, tag: Seq<char>)
    ensures
        scan_tags(tags, url, tag) is Match ==> tagged_as(tags, url, tag),
        scan_tags(tags, url, tag) is NoMatch ==> !tagged_as(tags, url, tag),
    decreases tags.len(),
{
    if tags.len() > 0 {
        let rest = tags.drop_first();
        lemma_scan_tags(rest, url, tag);
        if scan_tags(tags, url, tag) is Match {
            if !(first_piece(tags[0], ':') == url && second_piece(tags[0], ':') == tag) {
                let j = choose|j: int| 0 <= j < rest.len() && (#[trigger] rest[j]).contains(':')
                    && first_piece(rest[j], ':') == url && second_piece(rest[j], ':') == tag;
                assert(tags[j + 1] == rest[j]);
            }
        }
        if scan_tags(tags, url, tag) is NoMatch && tagged_as(tags, url, tag) {
            let j = choose|j: int| 0 <= j < tags.len() && (#[trigger] tags[j]).contains(':')
                && first_piece(tags[j], ':') == url && second_piece(tags[j], ':') == tag;
            assert(j > 0);
            assert(rest[j - 1] == tags[j]);
        }
    }
}

/// A local search finds an image only where that image is tagged
/// `url:tag`, and then reports that image's id and digest and no earlier
/// image is so tagged; where the scan meets no malformed tag and finds
/// nothing, no image is so tagged.
pub proof fn law_local_search_matches(images: Seq<ImageSummaryView>, url: Seq<char>, tag: Seq<char>)
    ensures
        local_search(images, url, tag).image_url == url,
        local_search(images, url, tag).image_tag == tag,
        scan_images(images, url, tag) matches ImageScan::Found(k) ==> k < images.len(),
        local_search(images, url, tag).found ==> exists|k: int| 0 <= k < images.len()
            && tagged_as(#[trigger] images[k].repo_tags, url, tag)
            && local_search(images, url, tag).image_id == Some(images[k].id)
            && local_search(images, url, tag).image_digest == Some(digest_of(images[k].repo_digests))
            && forall|j: int| 0 <= j < k ==> !tagged_as(#[trigger] images[j].repo_tags, url, tag),
        scan_images(images, url, tag) is Missing ==> !local_search(images, url, tag).found
            && forall|k: int| 0 <= k < images.len() ==> !tagged_as(#[trigger] images[k].repo_tags, url, tag),
    decreases images.len(),
{
    if images.len() > 0 {
        let rest = images.drop_first();
        law_local_search_matches(rest, url, tag);
        lemma_scan_tags(images[0].repo_tags, url, tag);
        match scan_tags(images[0].repo_tags, url, tag) {
            TagScan::Match => {
                assert(tagged_as(images[0].repo_tags, url, tag));
            },
            TagScan::Malformed => {},
            TagScan::NoMatch => {
                match scan_images(rest, url, tag) {
                    ImageScan::Found(k) => {
                        let k = k as int;
                        assert(k < rest.len());
                        assert(local_search(rest, url, tag).found);
                        let k2 = choose|k2: int| 0 <= k2 < rest.len()
                            && tagged_as(#[trigger] rest[k2].repo_tags, url, tag)
                            && local_search(rest, url, tag).image_id == Some(rest[k2].id)
                            && local_search(rest, url, tag).image_digest == Some(digest_of(rest[k2].repo_digests))
                            && forall|j: int| 0 <= j < k2 ==> !tagged_as(#[trigger] rest[j].repo_tags, url, tag);
                        assert(images[k2 + 1] == rest[k2]);
                        assert(rest[k] == images[k + 1]);
                        assert forall|j: int| 0 <= j < k2 + 1 implies !tagged_as(#[trigger] images[j].repo_tags, url, tag) by {
                            if j > 0 {
                                assert(images[j] == rest[j - 1]);
                            }
                        }
                    },
                    ImageScan::Missing => {
                        assert forall|k: int| 0 <= k < images.len() implies !tagged_as(#[trigger] images[k].repo_tags, url, tag) by {
                            if k > 0 {
                                assert(images[k] == rest[k - 1]);
                            }
                        }
                    },
                    ImageScan::Malformed => {},
                }
            },
        }
    }
}

/// Taking out underscores keeps every other character, in order, and
/// nothing else.
pub proof fn law_underscores_removed(s: Seq<char>)
    ensures
        without_underscores(s) == s.filter(|c: char| c != '_'),
        !without_underscores(s).contains('_'),
    decreases s.len(),
{
    reveal(Seq::filter);
    if s.len() > 0 {
        law_underscores_removed(s.drop_last());
    }
    let f = s.filter(|c: char| c != '_');
    if f.contains('_') {
        let i = choose|i: int| 0 <= i < f.len() && f[i] == '_';
        s.lemma_filter_pred(|c: char| c != '_', i);
    }
}

/// A log path ends with the part joined on: an absolute part stands alone,
/// and a relative one follows the base, with a `/` between them where the
/// base is not empty and does not end with one.
pub proof fn law_path_join(base: Seq<char>, part: Seq<char>)
    ensures
        ({
            let j = path_join(base, part);
            &&& j.len() >= part.len()
            &&& j.skip(j.len() - part.len()) == part
            &&& part.len() > 0 && part[0] == '/' ==> j == part
            &&& !(part.len() > 0 && part[0] == '/') ==> j.take(base.len() as int) == base
            &&& !(part.len() > 0 && part[0] == '/') && base.len() > 0 ==> j[base.len() + (j.len() - base.len() - part.len()) - 1] == '/'
        }),
{
    reveal_strlit("/");
    let j = path_join(base, part);
    assert(j.skip(j.len() - part.len()) =~= part);
    if !(part.len() > 0 && part[0] == '/') {
        assert(j.take(base.len() as int) =~= base);
    }
}

/// An update check that is due stays due as time passes.
pub proof fn law_update_due_stays_due(
    last_ms: int,
    use_cron: bool,
    interval_s: int,
    cron: Option<int>,
    now: int,
    later: int,
)
    requires
        now <= later,
        update_deadline(last_ms, use_cron, interval_s, cron) < now,
    ensures
        update_deadline(last_ms, use_cron, interval_s, cron) < later,
{
}

/// Which schedules the parser is asked about depends only on their field
/// count and on steps of zero: a text of fewer than five fields is never
/// used; one of five or more fields without a `/` is always used, whatever
/// else (lists, ranges, names) it holds; and one with a `*/0` element is
/// never used.
pub proof fn law_cron_texts_used(s: Seq<char>)
    ensures
        field_count(s) < 5 ==> !cron_text_supported(s),
        field_count(s) >= 5 && !s.contains('/') ==> cron_text_supported(s),
        (exists|p: int| 0 <= p && p + 3 <= s.len() && element_start(s, p) && #[trigger] s[p] == '*'
            && s[p + 1] == '/' && s[p + 2] == '0' && element_end(s, p + 3)) ==> !cron_text_supported(s),
{
    if field_count(s) >= 5 && !s.contains('/') {
        assert forall|p: int| 0 <= p < s.len() implies !#[trigger] zero_step_at(s, p) by {
            if p + 1 < s.len() {
                assert(s[p + 1] != '/');
            }
            assert(strip_end(s, p) == p);
        }
    }
    if exists|p: int| 0 <= p && p + 3 <= s.len() && element_start(s, p) && #[trigger] s[p] == '*'
        && s[p + 1] == '/' && s[p + 2] == '0' && element_end(s, p + 3) {
        let p = choose|p: int| 0 <= p && p + 3 <= s.len() && element_start(s, p) && #[trigger] s[p] == '*'
            && s[p + 1] == '/' && s[p + 2] == '0' && element_end(s, p + 3);
        assert(strip_end(s, p + 2) == p + 2);
        assert(strip_end(s, p) == p + 2);
        assert(zero_run_end(s, p + 3) == p + 3);
        assert(zero_run_end(s, p + 2) == p + 3);
        assert(zero_step_at(s, p));
    }
}

/// A schedule that is used decides when the next update check is due:
/// the instant the parser names after the last check, where it names one;
/// otherwise, or where no schedule is used, the interval decides.
pub proof fn law_cron_schedule_decides(c: ControlClockView)
    ensures
        c.update_use_cron && cron_text_supported(c.update_cron_text) && cron_next(c.update_cron_text, c.last_update_ms) is Some
            ==> next_update_deadline(c) == cron_next(c.update_cron_text, c.last_update_ms)->0,
        !(c.update_use_cron && cron_text_supported(c.update_cron_text) && cron_next(c.update_cron_text, c.last_update_ms) is Some)
            ==> next_update_deadline(c) == update_deadline(c.last_update_ms, false, c.update_interval, None),
{
}

/// Without a schedule, an update check is due exactly when the interval
/// has passed since the last one.
pub proof fn law_interval_update_deadline(last_ms: int, interval_s: int, cron: Option<int>)
    ensures
        update_deadline(last_ms, false, interval_s, cron) == last_ms + interval_s * 1000,
{
}

/// A configuration file without settings is refused for want of a target
/// repository.
pub proof fn law_config_without_settings(text: Seq<char>, e: IniEntries)
    requires
        ini_parse(text) == Some(e),
        forall|k: (Seq<char>, Seq<char>)| #[trigger] e.contains_key(k) ==> false,
    ensures
        config_result(text) == Err::<crate::config::ParsedConfigView, ConfigError>(
            ConfigError::MissingTargetRepo,
        ),
{
    assert(ini_value(e, "Default"@, "burnup_waiting"@) is None);
    assert(ini_value(e, "Default"@, "health_check_interval"@) is None);
    assert(ini_value(e, "Default"@, "update_check_interval"@) is None);
    assert(ini_value(e, "Repository"@, "docker_hub_target_repo"@) is None);
}


/// Whether a number setting, stored as `v`, came out as `n`: the number its
/// text spells where it is stored, `d` where it is not.
pub open spec fn number_read_as(v: Option<Seq<char>>, n: i64, d: i64) -> bool {
    match v {
        Some(t) => decimal_i64(t) == Some(n),
        None => n == d,
    }
}

/// Whether a number setting, stored as `v`, can be read: nothing is stored,
/// or its text spells an `i64`.
pub open spec fn number_readable(v: Option<Seq<char>>) -> bool {
    match v {
        Some(t) => decimal_i64(t) is Some,
        None => true,
    }
}

/// A readable configuration is accepted exactly when every number setting
/// that is stored spells an `i64` and the target repository is named. Each
/// setting of the accepted configuration is what the file stores, read as a
/// number for the number settings, or its default where the file stores
/// nothing; a yes/no setting is on exactly where it reads `yes`. The first
/// unreadable number, in the order burn-up, health interval, update
/// interval, is the error; then a missing repository; then the log size.
pub proof fn law_config_reads_settings(text: Seq<char>, e: IniEntries)
    requires
        ini_parse(text) == Some(e),
    ensures
        ({
            let burnup = ini_value(e, "Default"@, "burnup_waiting"@);
            let health = ini_value(e, "Default"@, "health_check_interval"@);
            let update = ini_value(e, "Default"@, "update_check_interval"@);
            let size = ini_value(e, "Logging"@, "max_file_size_mb"@);
            let repo = ini_value(e, "Repository"@, "docker_hub_target_repo"@);
            &&& (config_result(text) is Ok <==> number_readable(burnup) && number_readable(health)
                && number_readable(update) && number_readable(size) && repo is Some)
            &&& (!number_readable(burnup) ==> config_result(text) == Err::<ParsedConfigView, ConfigError>(
                ConfigError::BadNumber(NumberSetting::BurnupWaiting)))
            &&& (number_readable(burnup) && !number_readable(health) ==> config_result(text)
                == Err::<ParsedConfigView, ConfigError>(ConfigError::BadNumber(NumberSetting::HealthCheckInterval)))
            &&& (number_readable(burnup) && number_readable(health) && !number_readable(update)
                ==> config_result(text) == Err::<ParsedConfigView, ConfigError>(
                ConfigError::BadNumber(NumberSetting::UpdateCheckInterval)))
            &&& (number_readable(burnup) && number_readable(health) && number_readable(update)
                && repo is None ==> config_result(text) == Err::<ParsedConfigView, ConfigError>(
                ConfigError::MissingTargetRepo))
            &&& (number_readable(burnup) && number_readable(health) && number_readable(update)
                && repo is Some && !number_readable(size) ==> config_result(text)
                == Err::<ParsedConfigView, ConfigError>(ConfigError::BadNumber(NumberSetting::MaxFileSizeMb)))
            &&& (config_result(text) matches Ok(c) ==> {
                &&& number_read_as(burnup, c.default.burnup_waiting, 5)
                &&& number_read_as(health, c.default.health_check_interval, 5)
                &&& number_read_as(update, c.default.update_check_interval, 10)
                &&& number_read_as(size, c.logging.max_file_size_mb, 5)
                &&& Some(c.repository.registry_target_repo) == repo
                &&& c.repository.registry_username == ini_value(e, "Repository"@, "docker_hub_username"@)
                &&& c.repository.registry_password == ini_value(e, "Repository"@, "docker_hub_password"@)
                &&& c.default.container_prefix == match ini_value(e, "Default"@, "container_prefix"@) {
                    Some(t) => t,
                    None => "server"@,
                }
                &&& c.default.update_check_cron_text == match ini_value(e, "Default"@, "update_check_cron_text"@) {
                    Some(t) => t,
                    None => "*/2 * * * *"@,
                }
                &&& c.repository.registry_url == match ini_value(e, "Repository"@, "registry_url"@) {
                    Some(t) => t,
                    None => "hub.docker.com"@,
                }
                &&& c.default.is_development == (ini_value(e, "Default"@, "is_development"@) == Some("yes"@))
                &&& c.default.update_check_use_cron == (ini_value(e, "Default"@, "update_check_use_cron"@) == Some("yes"@))
                &&& c.repository.registry_login_info == (ini_value(e, "Default"@, "docker_hub_login_info"@) == Some("yes"@))
                &&& c.nginx_enabled == (ini_value(e, "Nginx"@, "nginx"@) == Some("yes"@))
                &&& c.logging.logging == (ini_value(e, "Logging"@, "logging"@) == Some("yes"@))
                &&& c.logging.logging_s3 == (ini_value(e, "Logging"@, "logging_s3"@) == Some("yes"@))
                &&& c.http_redirect == (ini_value(e, "Nginx"@, "http_redirect"@) == Some("yes"@))
                &&& c.default.docker_socket == match ini_value(e, "Default"@, "docker_socket"@) {
                    Some(t) => t,
                    None => "unix://var/run/docker.sock"@,
                }
                &&& c.logging.controller_logname == match ini_value(e, "Logging"@, "controller_logname"@) {
                    Some(t) => t,
                    None => "KUUWANGE"@,
                }
                &&& c.logging.logging_path == match ini_value(e, "Logging"@, "logging_path"@) {
                    Some(t) => t,
                    None => "./logs"@,
                }
                &&& c.logging.logging_prefix == match ini_value(e, "Logging"@, "logging_prefix"@) {
                    Some(t) => t,
                    None => "controller"@,
                }
                &&& c.logging.server_identity_prefix == match ini_value(e, "Logging"@, "server_identity_prefix"@) {
                    Some(t) => t,
                    None => "KUUWANGE_SERVER"@,
                }
                &&& c.s3.bucket == ini_value(e, "S3"@, "bucket"@)
                &&& c.s3.access_key == ini_value(e, "S3"@, "access_key"@)
                &&& c.s3.secret_key == ini_value(e, "S3"@, "secret_key"@)
                &&& c.s3.region_name == ini_value(e, "S3"@, "region_name"@)
                &&& c.s3.root_path == ini_value(e, "S3"@, "root_path"@)
            })
        }),
{
}

proof fn lemma_casefold_len(s: Seq<char>)
    requires
        ascii_text(s),
    ensures
        casefold(s).len() == s.len(),
{
}

/// A configuration file that names only the target repository is accepted,
/// and every other setting takes its default.
pub proof fn law_config_defaults(text: Seq<char>, e: IniEntries, repo: Seq<char>)
    requires
        ini_parse(text) == Some(e),
        e == Map::<(Seq<char>, Seq<char>), Option<Seq<char>>>::empty().insert(
            (casefold("Repository"@), casefold("docker_hub_target_repo"@)),
            Some(repo),
        ),
    ensures
        config_result(text) matches Ok(c) && {
            &&& c.repository.registry_target_repo == repo
            &&& c.repository.registry_url == "hub.docker.com"@
            &&& c.repository.registry_username is None
            &&& c.default.burnup_waiting == 5
            &&& c.default.health_check_interval == 5
            &&& c.default.update_check_interval == 10
            &&& c.default.container_prefix == "server"@
            &&& c.default.docker_socket == "unix://var/run/docker.sock"@
            &&& c.default.update_check_cron_text == "*/2 * * * *"@
            &&& !c.default.update_check_use_cron
            &&& !c.default.is_development
            &&& c.logging.max_file_size_mb == 5
            &&& !c.logging.logging
        },
{
    reveal_strlit("Repository");
    reveal_strlit("Default");
    reveal_strlit("Logging");
    reveal_strlit("docker_hub_target_repo");
    reveal_strlit("registry_url");
    reveal_strlit("docker_hub_username");
    assert(ascii_text("Repository"@));
    assert(ascii_text("Default"@));
    assert(ascii_text("Logging"@));
    assert(ascii_text("docker_hub_target_repo"@));
    assert(ascii_text("registry_url"@));
    assert(ascii_text("docker_hub_username"@));
    lemma_casefold_len("Repository"@);
    lemma_casefold_len("Default"@);
    lemma_casefold_len("Logging"@);
    lemma_casefold_len("docker_hub_target_repo"@);
    lemma_casefold_len("registry_url"@);
    lemma_casefold_len("docker_hub_username"@);
    let k0 = (casefold("Repository"@), casefold("docker_hub_target_repo"@));
    assert(ini_value(e, "Repository"@, "docker_hub_target_repo"@) == Some(repo));
    assert(casefold("Default"@) != k0.0);
    assert(casefold("Logging"@) != k0.0);
    assert(casefold("registry_url"@) != k0.1);
    assert(casefold("docker_hub_username"@) != k0.1);
    assert(ini_value(e, "Default"@, "burnup_waiting"@) is None);
    assert(ini_value(e, "Default"@, "health_check_interval"@) is None);
    assert(ini_value(e, "Default"@, "update_check_interval"@) is None);
    assert(ini_value(e, "Logging"@, "max_file_size_mb"@) is None);
}


/// Neither update stops a container while nginx may still send traffic to
/// it: every stop comes after nginx was pointed elsewhere, and the rollback
/// container is started before traffic moves to it.
pub proof fn law_traffic_moves_before_stop(image: Seq<char>, is_development: bool, wait: u64)
    ensures
        ({
            let m = main_update_steps(image, is_development, wait);
            &&& forall|j: int| 0 <= j < m.len() && (#[trigger] m[j]) is StopChecked ==> exists|i: int| 0 <= i < j && (#[trigger] m[i]) is PointNginxAtRollback
            &&& forall|j: int| 0 <= j < m.len() && (#[trigger] m[j]) is PointNginxAtRollback ==> exists|i: int| 0 <= i < j && (#[trigger] m[i]) is RunRollback
        }),
        ({
            let r = rollback_update_steps(image);
            forall|j: int| 0 <= j < r.len() && (#[trigger] r[j]) is StopChecked ==> exists|i: int| 0 <= i < j && (#[trigger] r[i]) is PointNginxAtMain
        }),
{
    let m = main_update_steps(image, is_development, wait);
    assert forall|j: int| 0 <= j < m.len() && (#[trigger] m[j]) is StopChecked implies exists|i: int| 0 <= i < j && (#[trigger] m[i]) is PointNginxAtRollback by {
        assert(j == 4);
        assert(m[3] is PointNginxAtRollback);
    }
    assert forall|j: int| 0 <= j < m.len() && (#[trigger] m[j]) is PointNginxAtRollback implies exists|i: int| 0 <= i < j && (#[trigger] m[i]) is RunRollback by {
        assert(j == 3);
        assert(m[0] is RunRollback);
    }
    let r = rollback_update_steps(image);
    assert forall|j: int| 0 <= j < r.len() && (#[trigger] r[j]) is StopChecked implies exists|i: int| 0 <= i < j && (#[trigger] r[i]) is PointNginxAtMain by {
        assert(j == 1);
        assert(r[0] is PointNginxAtMain);
    }
}

/// Every container that an update creates is started before the update
/// ends, from an image pulled just before: in the main update each creation
/// of the main container comes after a pull of that image at the main tag
/// (`latest` in development, `stable` otherwise) and is followed by a start
/// of the main container; the update ends by starting the main container and
/// then waiting the burn-up time. The rollback update pulls the image at the
/// `rollback` tag before creating the rollback container from it, and ends
/// with that creation.
pub proof fn law_created_containers_start(image: Seq<char>, is_development: bool, wait: u64)
    ensures
        ({
            let m = main_update_steps(image, is_development, wait);
            let tag = if is_development { "latest"@ } else { "stable"@ };
            let label = if is_development { "dev"@ } else { "main"@ };
            &&& m.len() >= 2
            &&& m[m.len() - 2] is RunMain
            &&& m[m.len() - 1] == UpdateActionView::Wait(wait)
            &&& exists|i: int| 0 <= i < m.len() && #[trigger] m[i] == UpdateActionView::CreateMain(image, label)
            &&& forall|j: int| 0 <= j < m.len() && (#[trigger] m[j]) is CreateMain ==> {
                &&& m[j] == UpdateActionView::CreateMain(image, label)
                &&& exists|k: int| j < k < m.len() && (#[trigger] m[k]) is RunMain
                &&& exists|i: int| 0 <= i < j && #[trigger] m[i] == UpdateActionView::Pull(image, tag)
            }
            &&& forall|j: int| 0 <= j < m.len() ==> !((#[trigger] m[j]) is CreateRollback)
        }),
        ({
            let r = rollback_update_steps(image);
            &&& r.len() >= 1
            &&& r[r.len() - 1] == UpdateActionView::CreateRollback(image, "rollback"@)
            &&& forall|j: int| 0 <= j < r.len() && (#[trigger] r[j]) is CreateRollback ==> {
                &&& r[j] == UpdateActionView::CreateRollback(image, "rollback"@)
                &&& exists|i: int| 0 <= i < j && #[trigger] r[i] == UpdateActionView::Pull(image, "rollback"@)
            }
            &&& forall|j: int| 0 <= j < r.len() ==> !((#[trigger] r[j]) is CreateMain)
        }),
{
    let m = main_update_steps(image, is_development, wait);
    let tag = if is_development { "latest"@ } else { "stable"@ };
    let label = if is_development { "dev"@ } else { "main"@ };
    assert(m[7] == UpdateActionView::CreateMain(image, label));
    assert forall|j: int| 0 <= j < m.len() && (#[trigger] m[j]) is CreateMain implies {
        &&& m[j] == UpdateActionView::CreateMain(image, label)
        &&& exists|k: int| j < k < m.len() && (#[trigger] m[k]) is RunMain
        &&& exists|i: int| 0 <= i < j && #[trigger] m[i] == UpdateActionView::Pull(image, tag)
    } by {
        assert(j == 7);
        assert(m[8] is RunMain);
        assert(m[6] == UpdateActionView::Pull(image, tag));
    }
    let r = rollback_update_steps(image);
    assert forall|j: int| 0 <= j < r.len() && (#[trigger] r[j]) is CreateRollback implies {
        &&& r[j] == UpdateActionView::CreateRollback(image, "rollback"@)
        &&& exists|i: int| 0 <= i < j && #[trigger] r[i] == UpdateActionView::Pull(image, "rollback"@)
    } by {
        assert(j == 3);
        assert(r[2] == UpdateActionView::Pull(image, "rollback"@));
    }
}

/// The images that are pulled are those the containers run: at start the
/// main image at the tag of the main role (the development role in
/// development) and the rollback image at the rollback role's tag are
/// checked against the registry, and nginx is pulled at its role's tag; an
/// update pulls only the base image, at the tag of the role whose container
/// it then creates, and labels that container with that role.
pub proof fn law_pulled_tags_are_run_tags(base: Seq<char>, is_development: bool, wait: u64)
    ensures
        ({
            let main_role = if is_development { ContainerRole::Dev } else { ContainerRole::Main };
            let st = startup_images_spec(base, is_development);
            let m = main_update_steps(base, is_development, wait);
            let r = rollback_update_steps(base);
            &&& st.len() == 3
            &&& st[0] == (StartupImageView { image: base, tag: role_tag(main_role), checked: true })
            &&& st[1] == (StartupImageView { image: base, tag: role_tag(ContainerRole::Rollback), checked: true })
            &&& st[2] == (StartupImageView { image: "nginx"@, tag: role_tag(ContainerRole::Nginx), checked: false })
            &&& forall|i: int| 0 <= i < m.len() && (#[trigger] m[i]) is Pull ==> m[i] == UpdateActionView::Pull(base, role_tag(main_role))
            &&& forall|i: int| 0 <= i < m.len() && (#[trigger] m[i]) is CreateMain ==> m[i]->CreateMain_0 == base
                && role_for_normalised(m[i]->CreateMain_1) == main_role
            &&& forall|i: int| 0 <= i < r.len() && (#[trigger] r[i]) is Pull ==> r[i] == UpdateActionView::Pull(base, role_tag(ContainerRole::Rollback))
            &&& forall|i: int| 0 <= i < r.len() && (#[trigger] r[i]) is CreateRollback ==> r[i]->CreateRollback_0 == base
                && role_for_normalised(r[i]->CreateRollback_1) == ContainerRole::Rollback
        }),
{
    reveal_strlit("main");
    reveal_strlit("dev");
    reveal_strlit("rollback");
    assert("main"@[0] != "dev"@[0]);
    assert("rollback"@[0] != "dev"@[0] && "rollback"@[0] != "main"@[0]);
    let main_role = if is_development { ContainerRole::Dev } else { ContainerRole::Main };
    let m = main_update_steps(base, is_development, wait);
    let r = rollback_update_steps(base);
    assert forall|i: int| 0 <= i < m.len() && (#[trigger] m[i]) is Pull implies m[i] == UpdateActionView::Pull(base, role_tag(main_role)) by {
        assert(i == 6);
    }
    assert forall|i: int| 0 <= i < m.len() && (#[trigger] m[i]) is CreateMain implies m[i]->CreateMain_0 == base
        && role_for_normalised(m[i]->CreateMain_1) == main_role by {
        assert(i == 7);
    }
    assert forall|i: int| 0 <= i < r.len() && (#[trigger] r[i]) is Pull implies r[i] == UpdateActionView::Pull(base, role_tag(ContainerRole::Rollback)) by {
        assert(i == 2);
    }
    assert forall|i: int| 0 <= i < r.len() && (#[trigger] r[i]) is CreateRollback implies r[i]->CreateRollback_0 == base
        && role_for_normalised(r[i]->CreateRollback_1) == ContainerRole::Rollback by {
        assert(i == 3);
    }
}

/// The burn-up wait is as many seconds as the configured number's size.
pub proof fn law_burnup_wait(burnup_waiting: i64)
    ensures
        burnup_seconds_spec(burnup_waiting) as int == (if burnup_waiting < 0 {
            -burnup_waiting
        } else {
            burnup_waiting as int
        }),
{
}

/// Whether `s` ends with `suffix`.
pub open spec fn ends_with(s: Seq<char>, suffix: Seq<char>) -> bool {
    s.len() >= suffix.len() && s.skip(s.len() - suffix.len()) == suffix
}

/// Whether `s` starts with `prefix`.
pub open spec fn starts_with(s: Seq<char>, prefix: Seq<char>) -> bool {
    s.len() >= prefix.len() && s.take(prefix.len() as int) == prefix
}

/// The nginx container is made so that retargeting works: the script that
/// every retarget line runs, `/etc/nginx/regenerate.sh`, is mounted into it
/// from the shared host directory; it starts out aimed at the main
/// container's name and at the port that application containers expose;
/// and it is linked to the main and the rollback container.
pub proof fn law_nginx_runs_retarget_script(p: ContainerPlan, app: ContainerPlan, host_port: u32, target: Seq<char>, port: Seq<char>)
    requires
        nginx_plan_ok(p),
        app_plan_ok(app, host_port),
    ensures
        ends_with(target_line(target), "; "@ + "/etc/nginx/regenerate.sh"@),
        ends_with(port_line(port), "; "@ + "/etc/nginx/regenerate.sh"@),
        exists|i: int| 0 <= i < texts(p.volumes).len() && ends_with(#[trigger] texts(p.volumes)[i], ":"@ + "/etc/nginx/regenerate.sh"@)
            && starts_with(texts(p.volumes)[i], "/tmp/kuuwange/"@),
        texts(p.env).contains("TARGET_CONTAINER="@ + role_name(ContainerRole::Main)),
        texts(p.env).contains("TARGET_PORT="@ + "3000"@),
        ports(app.expose).len() == 1 && ports(app.expose)[0].0 == 3000 && ports(app.expose)[0].2 == host_port,
        texts(p.links).contains(role_name(ContainerRole::Main)),
        texts(p.links).contains(role_name(ContainerRole::Rollback)),
{
    reveal_strlit("; ");
    reveal_strlit(":");
    reveal_strlit("/etc/nginx/regenerate.sh");
    reveal_strlit("/tmp/kuuwange/");
    reveal_strlit("/tmp/kuuwange/nginx/regenerate.sh:/etc/nginx/regenerate.sh");
    reveal_strlit("export TARGET_CONTAINER=");
    reveal_strlit("; /etc/nginx/regenerate.sh");
    reveal_strlit("TARGET_PORT=");
    reveal_strlit("TARGET_CONTAINER=");
    reveal_strlit("TARGET_CONTAINER=server_main");
    reveal_strlit("server_main");
    reveal_strlit("TARGET_PORT=3000");
    reveal_strlit("3000");
    let script = "/etc/nginx/regenerate.sh"@;
    let tail = "; "@ + script;
    assert(tail =~= "; /etc/nginx/regenerate.sh"@);
    let tl = target_line(target);
    assert(tl.skip(tl.len() - tail.len()) =~= tail);
    let pl = port_line(port);
    assert(pl.skip(pl.len() - tail.len()) =~= tail);
    let v = texts(p.volumes)[3];
    assert(v == "/tmp/kuuwange/nginx/regenerate.sh:/etc/nginx/regenerate.sh"@);
    let mount = ":"@ + script;
    assert(v.skip(v.len() - mount.len()) =~= mount);
    assert(v.take(14) =~= "/tmp/kuuwange/"@);
    assert(ends_with(texts(p.volumes)[3], mount));
    assert("TARGET_CONTAINER="@ + role_name(ContainerRole::Main) =~= texts(p.env)[0]);
    assert("TARGET_PORT="@ + "3000"@ =~= texts(p.env)[1]);
    assert(texts(p.links)[0] == role_name(ContainerRole::Main));
    assert(texts(p.links)[1] == role_name(ContainerRole::Rollback));
}

/// Retargeting runs one shell command for each thing given, the container
/// first: each is `/bin/sh -c` with a line that sets the variable to the
/// given value and then runs the regenerate script; with nothing given no
/// command runs. Afterwards nginx's recorded target address is the given
/// container, and nothing else in the status changes.
pub proof fn law_retarget_commands(s: SystemStatusView, target: Option<Seq<char>>, port: Option<Seq<char>>)
    ensures
        ({
            let cs = retarget_commands(target, port);
            let script = "; /etc/nginx/regenerate.sh"@;
            &&& cs.len() == (if target is Some { 1int } else { 0int }) + (if port is Some { 1int } else { 0int })
            &&& forall|i: int| 0 <= i < cs.len() ==> (#[trigger] cs[i]).len() == 3 && cs[i][0] == "/bin/sh"@
                && cs[i][1] == "-c"@ && ends_with(cs[i][2], script)
            &&& (target matches Some(t) ==> cs[0][2].take(cs[0][2].len() - script.len()) == "export TARGET_CONTAINER="@ + t)
            &&& (port matches Some(p) ==> cs[cs.len() - 1][2].take(cs[cs.len() - 1][2].len() - script.len())
                == "TARGET_PORT="@ + p)
            &&& retarget_status(s, target).nginx_target_ip == (match target {
                Some(t) => t,
                None => s.nginx_target_ip,
            })
            &&& retarget_status(s, target).nginx_target_role == s.nginx_target_role
            &&& retarget_status(s, target).main_ip == s.main_ip
            &&& retarget_status(s, target).rollback_ip == s.rollback_ip
            &&& retarget_status(s, target).in_update == s.in_update
        }),
{
    let cs = retarget_commands(target, port);
    let script = "; /etc/nginx/regenerate.sh"@;
    assert forall|i: int| 0 <= i < cs.len() implies (#[trigger] cs[i]).len() == 3 && cs[i][0] == "/bin/sh"@
        && cs[i][1] == "-c"@ && ends_with(cs[i][2], script) by {
        let l = cs[i][2];
        assert(l.skip(l.len() - script.len()) =~= script);
    }
    if let Some(t) = target {
        let l = cs[0][2];
        assert(l.take(l.len() - script.len()) =~= "export TARGET_CONTAINER="@ + t);
    }
    if let Some(p) = port {
        let l = cs[cs.len() - 1][2];
        assert(l.take(l.len() - script.len()) =~= "TARGET_PORT="@ + p);
    }
}

/// A check that has just run is not due again at the same instant, where
/// the interval is not negative (and, for updates, no schedule is used).
pub proof fn law_check_not_due_twice(c: ControlClockView, now: int)
    ensures
        !c.update_use_cron && c.update_interval >= 0 ==> !(next_update_deadline(ControlClockView { last_update_ms: now, ..c }) < now),
        c.health_check_interval >= 0 ==> !(next_health_deadline(ControlClockView { last_health_ms: now, ..c }) < now),
{
}


/// Which update flag the last start, finish or whole-status write among
/// `cs` leaves, if any of them occurs.
pub open spec fn last_update_flag(cs: Seq<StatusCall>) -> Option<bool>
    decreases cs.len(),
{
    if cs.len() == 0 {
        None
    } else {
        match cs.last() {
            StatusCall::UpdateStart => Some(true),
            StatusCall::UpdateFinish => Some(false),
            StatusCall::Replace(v) => Some(v.in_update),
            _ => last_update_flag(cs.drop_last()),
        }
    }
}

/// An update counts as running exactly when the last start or finish (or
/// whole-status write) says so; the other setters leave the flag alone, and
/// with none of these calls the flag stays as it was (not running, for a
/// fresh status).
pub proof fn law_update_flag(s: SystemStatusView, cs: Seq<StatusCall>)
    ensures
        apply_calls(s, cs).in_update == match last_update_flag(cs) {
            Some(b) => b,
            None => s.in_update,
        },
        last_update_flag(cs) is None ==> !apply_calls(initial_status(), cs).in_update,
    decreases cs.len(),
{
    if cs.len() > 0 {
        law_update_flag(s, cs.drop_last());
    }
    if cs.len() > 0 {
        law_update_flag(initial_status(), cs.drop_last());
    }
}


/// The health that the last write to the main container's health among
/// `cs` leaves, if any.
pub open spec fn last_main_health(cs: Seq<StatusCall>) -> Option<HealthyStatus>
    decreases cs.len(),
{
    if cs.len() == 0 {
        None
    } else {
        match cs.last() {
            StatusCall::Main(h) => Some(h),
            StatusCall::Replace(v) => Some(v.main),
            _ => last_main_health(cs.drop_last()),
        }
    }
}

/// The address that the last write to the main container's address among
/// `cs` leaves, if any.
pub open spec fn last_main_ip(cs: Seq<StatusCall>) -> Option<Option<Seq<char>>>
    decreases cs.len(),
{
    if cs.len() == 0 {
        None
    } else {
        match cs.last() {
            StatusCall::MainIp(ip) => Some(ip),
            StatusCall::Replace(v) => Some(v.main_ip),
            _ => last_main_ip(cs.drop_last()),
        }
    }
}

/// The role that the last write to nginx's target role among `cs` leaves,
/// if any.
pub open spec fn last_nginx_target(cs: Seq<StatusCall>) -> Option<ContainerRole>
    decreases cs.len(),
{
    if cs.len() == 0 {
        None
    } else {
        match cs.last() {
            StatusCall::NginxTarget(r) => Some(r),
            StatusCall::Replace(v) => Some(v.nginx_target_role),
            _ => last_nginx_target(cs.drop_last()),
        }
    }
}

/// Reading the main container's health gives back what the last write to
/// it put there (the health it started with where there was none); the
/// other setters leave it alone.
pub proof fn law_main_health_read_after_write(s: SystemStatusView, cs: Seq<StatusCall>)
    ensures
        apply_calls(s, cs).main == match last_main_health(cs) {
            Some(h) => h,
            None => s.main,
        },
        last_main_health(cs) is None ==> apply_calls(initial_status(), cs).main
            == HealthyStatus::Ready,
    decreases cs.len(),
{
    if cs.len() > 0 {
        law_main_health_read_after_write(s, cs.drop_last());
        law_main_health_read_after_write(initial_status(), cs.drop_last());
    }
}

/// Reading the main container's address gives back what the last write to
/// it put there (none, for a fresh status, where there was no write).
pub proof fn law_main_ip_read_after_write(s: SystemStatusView, cs: Seq<StatusCall>)
    ensures
        apply_calls(s, cs).main_ip == match last_main_ip(cs) {
            Some(ip) => ip,
            None => s.main_ip,
        },
        last_main_ip(cs) is None ==> apply_calls(initial_status(), cs).main_ip is None,
    decreases cs.len(),
{
    if cs.len() > 0 {
        law_main_ip_read_after_write(s, cs.drop_last());
        law_main_ip_read_after_write(initial_status(), cs.drop_last());
    }
}

/// Reading nginx's target role gives back what the last write to it put
/// there, and the main role for a fresh status where there was none.
pub proof fn law_nginx_target_read_after_write(s: SystemStatusView, cs: Seq<StatusCall>)
    ensures
        apply_calls(s, cs).nginx_target_role == match last_nginx_target(cs) {
            Some(r) => r,
            None => s.nginx_target_role,
        },
        last_nginx_target(cs) is None ==> apply_calls(initial_status(), cs).nginx_target_role
            == ContainerRole::Main,
    decreases cs.len(),
{
    if cs.len() > 0 {
        law_nginx_target_read_after_write(s, cs.drop_last());
        law_nginx_target_read_after_write(initial_status(), cs.drop_last());
    }
}

} // verus!
