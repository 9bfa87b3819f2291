//! The image catalog, and the decisions around an image call.
//!
//! The application performs the call between `prepare` and `accepted`, and
//! between `task_connection` and `decode_task`.

use crate::encoding;
use crate::images::decode;
use crate::images::error::{self, ImageError, ImageErrorView};
use crate::images::validate;
use crate::json::{self, Json, JsonView};
use crate::protocol::{
    AttachmentRef, ImageApi, ImageCapabilities, ImageInput, ImageModelListing,
    ImageModelListingView, ImageModelProfile, ImageRequest, ImageResponse, ImageResponseView,
    ImageRouteConfig, ImageTaskRef, ImageTaskRefView, LlmError, LlmErrorView, ProviderProfile,
    Region,
};
use crate::text;
use crate::transport::{self, HttpRequest};
use crate::views;
use vstd::prelude::*;

verus! {

broadcast use crate::views::group_views;

/// The image side of the configured connections in a region.
pub struct ImageService<'a> {
    profiles: &'a Vec<ProviderProfile>,
    region: Region,
}

/// The first profile with the name, from the `i`th on.
pub open spec fn named(profiles: Seq<ProviderProfile>, name: Seq<char>, i: int) -> Option<int>
    decreases profiles.len() - i,
{
    if i < 0 || i >= profiles.len() {
        None
    } else if profiles[i].profile_name@ == name {
        Some(i)
    } else {
        named(profiles, name, i + 1)
    }
}

/// Whether a connection is meant by the scope: the concrete connection of that
/// name wins over an identically named group.
pub open spec fn in_scope(
    profiles: Seq<ProviderProfile>,
    region: Region,
    profile: ProviderProfile,
    scope: Seq<char>,
) -> bool {
    if named(profiles, scope, 0) matches Some(i) && profiles[i].serves(region) {
        profile.profile_name@ == scope
    } else {
        profile.group_name() == scope
    }
}

pub open spec fn aliased(aliases: Seq<String>, name: Seq<char>) -> bool {
    exists|i: int| 0 <= i < aliases.len() && (#[trigger] aliases[i])@ == name
}

/// Whether a request for `requested` means the model of the connection.
pub open spec fn model_matches(
    profiles: Seq<ProviderProfile>,
    region: Region,
    profile: ProviderProfile,
    model: ImageModelProfile,
    requested: Seq<char>,
) -> bool {
    ||| requested == model.display_model@
    ||| requested == model.request_model@
    ||| requested == profile.profile_name@ + "/"@ + model.display_model@
    ||| requested == profile.group_name() + "/"@ + model.display_model@ && in_scope(
        profiles,
        region,
        profile,
        profile.group_name(),
    )
    ||| aliased(model.aliases@, requested)
}

/// The route with the name, from the `i`th on.
pub open spec fn route_named(
    routes: Seq<(String, ImageRouteConfig)>,
    name: Seq<char>,
    i: int,
) -> Option<ImageRouteConfig>
    decreases routes.len() - i,
{
    if i < 0 || i >= routes.len() {
        None
    } else if routes[i].0@ == name {
        Some(routes[i].1)
    } else {
        route_named(routes, name, i + 1)
    }
}

/// The models of one connection that a request means, after those before; a
/// model without its route is an error.
pub open spec fn matches_in(
    profiles: Seq<ProviderProfile>,
    region: Region,
    requested: Seq<char>,
    p: int,
    m: int,
    before: Seq<(int, int)>,
) -> Result<Seq<(int, int)>, ImageErrorView>
    decreases profiles[p].images.models@.len() - m,
{
    let profile = profiles[p];
    let models = profile.images.models@;
    if m < 0 || m >= models.len() {
        Ok(before)
    } else if !model_matches(profiles, region, profile, models[m], requested) {
        matches_in(profiles, region, requested, p, m + 1, before)
    } else if route_named(profile.images.routes@, models[m].route@, 0) is None {
        Err(
            error::invalid_view(
                "image route "@ + text::debug_text(models[m].route@) + " missing on profile "@
                    + text::debug_text(profile.profile_name@),
            ),
        )
    } else {
        matches_in(profiles, region, requested, p, m + 1, before.push((p, m)))
    }
}

/// The models that a request means, over the connections from the `p`th on.
pub open spec fn candidates(
    profiles: Seq<ProviderProfile>,
    region: Region,
    requested: Seq<char>,
    scoped: Option<Seq<char>>,
    p: int,
    before: Seq<(int, int)>,
) -> Result<Seq<(int, int)>, ImageErrorView>
    decreases profiles.len() - p,
{
    if p < 0 || p >= profiles.len() {
        Ok(before)
    } else if !profiles[p].serves(region) || (scoped matches Some(scope) && !in_scope(
        profiles,
        region,
        profiles[p],
        scope,
    )) {
        candidates(profiles, region, requested, scoped, p + 1, before)
    } else {
        match matches_in(profiles, region, requested, p, 0, before) {
            Err(error) => Err(error),
            Ok(found) => candidates(profiles, region, requested, scoped, p + 1, found),
        }
    }
}

/// The one model that a request means, by connection and row.
pub open spec fn resolved(
    profiles: Seq<ProviderProfile>,
    region: Region,
    requested: Seq<char>,
    scoped: Option<Seq<char>>,
) -> Result<(int, int), ImageErrorView> {
    match candidates(profiles, region, requested, scoped, 0, seq![]) {
        Err(error) => Err(error),
        Ok(found) => if found.len() == 1 {
            Ok(found[0])
        } else if found.len() == 0 {
            Err(
                ImageErrorView::Llm(
                    LlmErrorView::ModelUnavailable {
                        message: "no image model matches "@ + text::debug_text(requested),
                    },
                ),
            )
        } else {
            Err(
                error::invalid_view(
                    "image model "@ + text::debug_text(requested)
                        + " is ambiguous; qualify the profile"@,
                ),
            )
        },
    }
}

/// The visible rows of one connection, after those before.
pub open spec fn listed_in(
    profile: ProviderProfile,
    m: int,
    before: Seq<ImageModelListingView>,
) -> Seq<ImageModelListingView>
    decreases profile.images.models@.len() - m,
{
    let models = profile.images.models@;
    if m < 0 || m >= models.len() {
        before
    } else if models[m].hidden {
        listed_in(profile, m + 1, before)
    } else {
        listed_in(
            profile,
            m + 1,
            before.push(
                ImageModelListingView {
                    profile_name: profile.profile_name@,
                    provider_id: profile.provider_id@,
                    display_model: models[m].display_model@,
                    request_model: models[m].request_model@,
                    capabilities: models[m].capabilities,
                },
            ),
        )
    }
}

/// The visible rows of the connections from the `p`th on, after those before.
pub open spec fn listed(
    profiles: Seq<ProviderProfile>,
    region: Region,
    p: int,
    before: Seq<ImageModelListingView>,
) -> Seq<ImageModelListingView>
    decreases profiles.len() - p,
{
    if p < 0 || p >= profiles.len() {
        before
    } else if profiles[p].serves(region) && !profiles[p].connection.hidden {
        listed(profiles, region, p + 1, listed_in(profiles[p], 0, before))
    } else {
        listed(profiles, region, p + 1, before)
    }
}

fn route_of<'a>(routes: &'a Vec<(String, ImageRouteConfig)>, name: &str) -> (result: Option<
    &'a ImageRouteConfig,
>)
    ensures
        match result {
            Some(route) => route_named(routes@, name@, 0) == Some(*route),
            None => route_named(routes@, name@, 0) is None,
        },
{
    let mut i: usize = 0;
    while i < routes.len()
        invariant
            i <= routes.len(),
            route_named(routes@, name@, 0) == route_named(routes@, name@, i as int),
        decreases routes.len() - i,
    {
        if text::same(&routes[i].0, name) {
            return Some(&routes[i].1);
        }
        i = i + 1;
    }
    None
}

fn has_alias(aliases: &Vec<String>, name: &str) -> (result: bool)
    ensures
        result == aliased(aliases@, name@),
{
    let mut i: usize = 0;
    while i < aliases.len()
        invariant
            i <= aliases.len(),
            forall|j: int| 0 <= j < i ==> (#[trigger] aliases@[j])@ != name@,
        decreases aliases.len() - i,
    {
        if text::same(&aliases[i], name) {
            return true;
        }
        i = i + 1;
    }
    false
}

impl<'a> ImageService<'a> {
    pub closed spec fn connections(&self) -> Seq<ProviderProfile> {
        self.profiles@
    }

    pub closed spec fn here(&self) -> Region {
        self.region
    }

    pub fn new(profiles: &'a Vec<ProviderProfile>, region: Region) -> (service: Self)
        ensures
            service.connections() == profiles@,
            service.here() == region,
    {
        ImageService { profiles, region }
    }

    /// The visible image models of the connections usable in the region.
    pub fn models(&self) -> (result: Vec<ImageModelListing>)
        ensures
            result.deep_view() == listed(self.connections(), self.here(), 0, seq![]),
    {
        let mut out: Vec<ImageModelListing> = Vec::new();
        assert(out.deep_view() =~= seq![]);
        let mut p: usize = 0;
        while p < self.profiles.len()
            invariant
                p <= self.profiles.len(),
                listed(self.profiles@, self.region, 0, seq![]) == listed(
                    self.profiles@,
                    self.region,
                    p as int,
                    out.deep_view(),
                ),
            decreases self.profiles.len() - p,
        {
            let profile = &self.profiles[p];
            if profile.supports_region(self.region) && !profile.connection.hidden {
                let ghost start = out.deep_view();
                let models = &profile.images.models;
                let mut m: usize = 0;
                while m < models.len()
                    invariant
                        m <= models.len(),
                        models@ == profile.images.models@,
                        listed_in(*profile, 0, start) == listed_in(
                            *profile,
                            m as int,
                            out.deep_view(),
                        ),
                    decreases models.len() - m,
                {
                    let model = &models[m];
                    if !model.hidden {
                        out.push(
                            ImageModelListing {
                                profile_name: profile.profile_name.clone(),
                                provider_id: profile.provider_id.clone(),
                                display_model: model.display_model.clone(),
                                request_model: model.request_model.clone(),
                                capabilities: model.capabilities,
                            },
                        );
                    }
                    m = m + 1;
                }
            }
            p = p + 1;
        }
        out
    }

    fn find_profile(&self, name: &str) -> (result: Option<&'a ProviderProfile>)
        ensures
            match result {
                Some(profile) => named(self.connections(), name@, 0) matches Some(i)
                    && self.connections()[i] == *profile,
                None => named(self.connections(), name@, 0) is None,
            },
    {
        let mut i: usize = 0;
        while i < self.profiles.len()
            invariant
                i <= self.profiles.len(),
                named(self.profiles@, name@, 0) == named(self.profiles@, name@, i as int),
            decreases self.profiles.len() - i,
        {
            if text::same(&self.profiles[i].profile_name, name) {
                return Some(&self.profiles[i]);
            }
            i = i + 1;
        }
        None
    }

    fn is_in_scope(&self, profile: &ProviderProfile, scope: &str) -> (result: bool)
        ensures
            result == in_scope(self.connections(), self.here(), *profile, scope@),
    {
        let concrete = match self.find_profile(scope) {
            Some(named) => named.supports_region(self.region),
            None => false,
        };
        if concrete {
            text::same(&profile.profile_name, scope)
        } else {
            text::same(profile.group(), scope)
        }
    }

    fn means(&self, profile: &ProviderProfile, model: &ImageModelProfile, requested: &str) -> (result:
        bool)
        ensures
            result == model_matches(
                self.connections(),
                self.here(),
                *profile,
                *model,
                requested@,
            ),
    {
        let qualified = text::cat3(&profile.profile_name, "/", &model.display_model);
        let group_qualified = text::cat3(profile.group(), "/", &model.display_model);
        text::same(requested, &model.display_model) || text::same(requested, &model.request_model)
            || text::same(requested, &qualified) || (text::same(requested, &group_qualified)
            && self.is_in_scope(profile, profile.group())) || has_alias(&model.aliases, requested)
    }

    fn add_matches(&self, requested: &str, p: usize, found: &mut Vec<(usize, usize)>) -> (result: Result<
        (),
        ImageError,
    >)
        requires
            p < self.connections().len(),
            indices_ok(self.connections(), old(found)@),
        ensures
            match result {
                Ok(()) => matches_in(
                    self.connections(),
                    self.here(),
                    requested@,
                    p as int,
                    0,
                    as_ints(old(found)@),
                ) == Ok::<Seq<(int, int)>, ImageErrorView>(as_ints(final(found)@)) && indices_ok(
                    self.connections(),
                    final(found)@,
                ),
                Err(error) => matches_in(
                    self.connections(),
                    self.here(),
                    requested@,
                    p as int,
                    0,
                    as_ints(old(found)@),
                ) == Err::<Seq<(int, int)>, ImageErrorView>(error@),
            },
    {
        let profile = &self.profiles[p];
        let models = &profile.images.models;
        let mut m: usize = 0;
        let ghost start = as_ints(found@);
        while m < models.len()
            invariant
                m <= models.len(),
                p < self.profiles@.len(),
                *profile == self.profiles@[p as int],
                models@ == profile.images.models@,
                start == as_ints(old(found)@),
                indices_ok(self.profiles@, found@),
                matches_in(self.profiles@, self.region, requested@, p as int, 0, start)
                    == matches_in(
                    self.profiles@,
                    self.region,
                    requested@,
                    p as int,
                    m as int,
                    as_ints(found@),
                ),
            decreases models.len() - m,
        {
            let model = &models[m];
            if self.means(profile, model, requested) {
                if route_of(&profile.images.routes, &model.route).is_none() {
                    return Err(
                        error::invalid(
                            &text::cat4(
                                "image route ",
                                &text::debug(&model.route),
                                " missing on profile ",
                                &text::debug(&profile.profile_name),
                            ),
                        ),
                    );
                }
                let ghost before = found@;
                found.push((p, m));
                assert(as_ints(found@) =~= as_ints(before).push((p as int, m as int)));
            }
            m = m + 1;
        }
        Ok(())
    }

    /// The one model that a request means, its connection and its route.
    pub fn resolve(&self, requested: &str, scoped: Option<&str>) -> (result: Result<
        (&'a ProviderProfile, &'a ImageModelProfile, &'a ImageRouteConfig),
        ImageError,
    >)
        ensures
            match result {
                Ok((profile, model, route)) => resolved(
                    self.connections(),
                    self.here(),
                    requested@,
                    scoped.deep_view(),
                ) matches Ok((p, m)) && 0 <= p < self.connections().len() && 0 <= m
                    < profile.images.models@.len() && self.connections()[p] == *profile
                    && profile.images.models@[m] == *model && route_named(
                    profile.images.routes@,
                    model.route@,
                    0,
                ) == Some(*route),
                Err(error) => resolved(
                    self.connections(),
                    self.here(),
                    requested@,
                    scoped.deep_view(),
                ) == Err::<(int, int), ImageErrorView>(error@),
            },
    {
        let mut found: Vec<(usize, usize)> = Vec::new();
        assert(as_ints(found@) =~= seq![]);
        let mut p: usize = 0;
        while p < self.profiles.len()
            invariant
                p <= self.profiles.len(),
                indices_ok(self.profiles@, found@),
                candidates(
                    self.profiles@,
                    self.region,
                    requested@,
                    scoped.deep_view(),
                    0,
                    seq![],
                ) == candidates(
                    self.profiles@,
                    self.region,
                    requested@,
                    scoped.deep_view(),
                    p as int,
                    as_ints(found@),
                ),
            decreases self.profiles.len() - p,
        {
            let profile = &self.profiles[p];
            let wanted = profile.supports_region(self.region) && match scoped {
                Some(scope) => self.is_in_scope(profile, scope),
                None => true,
            };
            if wanted {
                self.add_matches(requested, p, &mut found)?;
            }
            p = p + 1;
        }
        if found.len() == 1 {
            let (p, m) = found[0];
            assert(as_ints(found@)[0] == (p as int, m as int));
            let profile = &self.profiles[p];
            let model = &profile.images.models[m];
            match route_of(&profile.images.routes, &model.route) {
                Some(route) => return Ok((profile, model, route)),
                None => {
                    assert(false);
                },
            }
        }
        if found.len() == 0 {
            return Err(
                ImageError::Llm(
                    LlmError::ModelUnavailable {
                        message: text::cat2("no image model matches ", &text::debug(requested)),
                    },
                ),
            );
        }
        Err(
            error::invalid(
                &text::cat3(
                    "image model ",
                    &text::debug(requested),
                    " is ambiguous; qualify the profile",
                ),
            ),
        )
    }

    /// What the model can do.
    pub fn capabilities(&self, model: &str) -> (result: Result<ImageCapabilities, ImageError>)
        ensures
            match resolved(self.connections(), self.here(), model@, None) {
                Ok((p, m)) => result == Ok::<ImageCapabilities, ImageError>(
                    self.connections()[p].images.models@[m].capabilities,
                ),
                Err(error) => result matches Err(e) && e@ == error,
            },
    {
        let (_, model, _) = self.resolve(model, None)?;
        Ok(model.capabilities)
    }

    /// What the model can do on the profile or in the group.
    pub fn capabilities_in(&self, profile: &str, model: &str) -> (result: Result<
        ImageCapabilities,
        ImageError,
    >)
        ensures
            match resolved(self.connections(), self.here(), model@, Some(profile@)) {
                Ok((p, m)) => result == Ok::<ImageCapabilities, ImageError>(
                    self.connections()[p].images.models@[m].capabilities,
                ),
                Err(error) => result matches Err(e) && e@ == error,
            },
    {
        let (_, model, _) = self.resolve(model, Some(profile))?;
        Ok(model.capabilities)
    }

    /// What a call comes to before anything is sent: the resolved model, or the
    /// first rule that the request breaks.
    pub fn prepare(
        &self,
        req: &ImageRequest,
        scope: Option<&str>,
        account_scope: Option<&str>,
        asynchronous: bool,
    ) -> (result: Result<
        (&'a ProviderProfile, &'a ImageModelProfile, &'a ImageRouteConfig),
        ImageError,
    >)
        ensures
            match resolved(self.connections(), self.here(), req.model_name(), scope.deep_view()) {
                Err(error) => result matches Err(e) && e@ == error,
                Ok((p, m)) => {
                    let profile = self.connections()[p];
                    let model = profile.images.models@[m];
                    route_named(profile.images.routes@, model.route@, 0) matches Some(route)
                        && match call_error(*req, model, route, account_scope.deep_view(), asynchronous) {
                        Some(error) => result matches Err(e) && e@ == error,
                        None => result matches Ok(found) && *found.0 == profile && *found.1 == model
                            && *found.2 == route,
                    }
                },
            },
    {
        let found = self.resolve(req.model(), scope)?;
        validate::validate(req, found.1, found.2, asynchronous)?;
        let scoped = match account_scope {
            Some(account) => !account.is_empty(),
            None => false,
        };
        if asynchronous && !scoped {
            return Err(error::invalid("native image tasks require a non-empty account_scope"));
        }
        Ok(found)
    }

    /// The connection and route that a task was submitted on.
    pub fn task_connection(&self, task: &ImageTaskRef) -> (result: Result<
        (&'a ProviderProfile, &'a ImageRouteConfig),
        ImageError,
    >)
        ensures
            match named(self.connections(), task.profile_name@, 0) {
                Some(i) => if self.connections()[i].serves(self.here()) {
                    match route_named(self.connections()[i].images.routes@, task.route@, 0) {
                        Some(route) => result matches Ok(found) && *found.0 == self.connections()[i]
                            && *found.1 == route,
                        None => result matches Err(e) && e@ == ImageErrorView::TaskScopeMismatch(
                            "image route no longer exists"@,
                        ),
                    }
                } else {
                    result matches Err(e) && e@ == ImageErrorView::TaskScopeMismatch(
                        "profile is unavailable in this region"@,
                    )
                },
                None => result matches Err(e) && e@ == ImageErrorView::TaskScopeMismatch(
                    "profile is unavailable in this region"@,
                ),
            },
    {
        let profile = match self.find_profile(&task.profile_name) {
            Some(profile) => profile,
            None => return Err(
                ImageError::TaskScopeMismatch("profile is unavailable in this region".to_owned()),
            ),
        };
        if !profile.supports_region(self.region) {
            return Err(
                ImageError::TaskScopeMismatch("profile is unavailable in this region".to_owned()),
            );
        }
        match route_of(&profile.images.routes, &task.route) {
            Some(route) => Ok((profile, route)),
            None => Err(ImageError::TaskScopeMismatch("image route no longer exists".to_owned())),
        }
    }
}

/// What a resolved call breaks, if anything.
pub open spec fn call_error(
    req: ImageRequest,
    model: ImageModelProfile,
    route: ImageRouteConfig,
    account_scope: Option<Seq<char>>,
    asynchronous: bool,
) -> Option<ImageErrorView> {
    if validate::request_error(req, model, route, asynchronous) is Some {
        validate::request_error(req, model, route, asynchronous)
    } else if asynchronous && !(account_scope matches Some(account) && account.len() > 0) {
        Some(error::invalid_view("native image tasks require a non-empty account_scope"@))
    } else {
        None
    }
}

/// Index pairs as mathematical integers.
pub open spec fn as_ints(found: Seq<(usize, usize)>) -> Seq<(int, int)> {
    Seq::new(found.len(), |i: int| (found[i].0 as int, found[i].1 as int))
}

/// Every pair names a connection, a row of it and a route that is there.
pub open spec fn indices_ok(profiles: Seq<ProviderProfile>, found: Seq<(usize, usize)>) -> bool {
    forall|i: int|
        0 <= i < found.len() ==> {
            let pair = #[trigger] found[i];
            &&& pair.0 < profiles.len()
            &&& pair.1 < profiles[pair.0 as int].images.models@.len()
            &&& route_named(
                profiles[pair.0 as int].images.routes@,
                profiles[pair.0 as int].images.models@[pair.1 as int].route@,
                0,
            ) is Some
        }
}

/// Whether a task may be asked for on a connection: it was submitted there, at
/// the same endpoint and by the same account.
pub fn check_task(
    task: &ImageTaskRef,
    profile: &ProviderProfile,
    endpoint_fingerprint: &str,
    account_scope: Option<&str>,
) -> (result: Result<(), ImageError>)
    ensures
        result is Ok <==> task.version == 1 && task.provider_id@ == profile.provider_id@
            && task.endpoint_fingerprint@ == endpoint_fingerprint@ && account_scope.deep_view()
            == Some(task.account_scope@),
        result matches Err(e) ==> e@ == ImageErrorView::TaskScopeMismatch(
            "task identity, endpoint, or account changed"@,
        ),
{
    let same_account = match account_scope {
        Some(account) => text::same(account, &task.account_scope),
        None => false,
    };
    if task.version != 1 || !text::same(&task.provider_id, &profile.provider_id) || !text::same(
        &task.endpoint_fingerprint,
        endpoint_fingerprint,
    ) || !same_account {
        return Err(
            ImageError::TaskScopeMismatch("task identity, endpoint, or account changed".to_owned()),
        );
    }
    Ok(())
}

/// The reference to a task that a connection accepted.
pub open spec fn submitted(
    task_id: Seq<char>,
    profile: ProviderProfile,
    model: ImageModelProfile,
    endpoint_fingerprint: Seq<char>,
    account_scope: Seq<char>,
) -> ImageTaskRefView {
    ImageTaskRefView {
        version: 1,
        provider_id: profile.provider_id@,
        profile_name: profile.profile_name@,
        route: model.route@,
        endpoint_fingerprint,
        account_scope,
        request_model: model.request_model@,
        provider_task_id: task_id,
    }
}

/// The task that the body of a response accepts.
pub fn accepted(
    body: &Json,
    profile: &ProviderProfile,
    model: &ImageModelProfile,
    route: &ImageRouteConfig,
    endpoint_fingerprint: &str,
    account_scope: &str,
) -> (result: Result<ImageTaskRef, ImageError>)
    ensures
        match decode::accepted_task(route.api, body@) {
            Ok(id) => result matches Ok(task) && task.deep_view() == submitted(
                id,
                *profile,
                *model,
                endpoint_fingerprint@,
                account_scope@,
            ),
            Err(error) => result matches Err(e) && e@ == error,
        },
{
    let provider_task_id = decode::task_id(route.api, body)?;
    Ok(
        ImageTaskRef {
            version: 1,
            provider_id: profile.provider_id.clone(),
            profile_name: profile.profile_name.clone(),
            route: model.route.clone(),
            endpoint_fingerprint: endpoint_fingerprint.to_owned(),
            account_scope: account_scope.to_owned(),
            request_model: model.request_model.clone(),
            provider_task_id,
        },
    )
}

/// A task that was accepted on a connection can be asked for on it again, by the
/// same account at the same endpoint, and by no other account or endpoint.
pub proof fn a_task_belongs_to_its_connection(
    task: ImageTaskRef,
    task_id: Seq<char>,
    profile: ProviderProfile,
    model: ImageModelProfile,
    fingerprint: Seq<char>,
    account: Seq<char>,
    other_fingerprint: Seq<char>,
    other_account: Option<Seq<char>>,
)
    requires
        task.deep_view() == submitted(task_id, profile, model, fingerprint, account),
    ensures
        (task.version == 1 && task.provider_id@ == profile.provider_id@
            && task.endpoint_fingerprint@ == other_fingerprint && other_account == Some(
            task.account_scope@,
        )) <==> (other_fingerprint == fingerprint && other_account == Some(account)),
{
}

/// The bytes in lower-case hexadecimal.
pub open spec fn hex_of(bytes: Seq<u8>) -> Seq<char>
    decreases bytes.len(),
{
    if bytes.len() == 0 {
        seq![]
    } else {
        hex_of(bytes.drop_last()) + text::lower(text::hex_text(bytes.last() as nat, 2))
    }
}

/// The fingerprint of a route, from its serialized form.
pub fn fingerprint(route: &[u8]) -> (result: String)
    ensures
        result@ == hex_of(encoding::sha256_of(route@)),
{
    let digest = encoding::sha256(route);
    let mut out = String::new();
    let mut i: usize = 0;
    assert(digest@.take(0) =~= seq![]);
    while i < digest.len()
        invariant
            i <= digest.len(),
            out@ == hex_of(digest@.take(i as int)),
        decreases digest.len() - i,
    {
        let two = text::to_lower(&text::hex(digest[i] as u64, 2));
        out = text::cat2(&out, &two);
        i = i + 1;
        assert(digest@.take(i as int).drop_last() =~= digest@.take(i - 1));
    }
    assert(digest@.take(i as int) =~= digest@);
    out
}

/// Puts the credential on a request: as a bearer token in `authorization`, or as
/// it is in the route's own header.
pub fn apply_credential(
    request: &mut HttpRequest,
    api_key_header: Option<&str>,
    credential: Option<&str>,
) -> (result: Result<(), ImageError>)
    ensures
        match credential {
            None => final(request)@ == old(request)@ && (result matches Err(e) && e@
                == ImageErrorView::Llm(
                LlmErrorView::Authentication { message: "image request needs a credential"@ },
            )),
            Some(credential) => {
                let header = match api_key_header {
                    Some(header) => header@,
                    None => "authorization"@,
                };
                let value = if text::lower(header) == text::lower("authorization"@) {
                    "Bearer "@ + credential@
                } else {
                    credential@
                };
                &&& result is Ok
                &&& final(request)@.headers == transport::without_header(old(request)@.headers, header).push(
                    (header, value),
                )
                &&& final(request)@.method == old(request)@.method
                &&& final(request)@.url == old(request)@.url
                &&& final(request)@.body == old(request)@.body
                &&& final(request)@.timeout == old(request)@.timeout
            },
        },
{
    let credential = match credential {
        Some(credential) => credential,
        None => return Err(
            ImageError::Llm(
                LlmError::Authentication {
                    message: "image request needs a credential".to_owned(),
                },
            ),
        ),
    };
    let header = match api_key_header {
        Some(header) => header,
        None => "authorization",
    };
    let value = if text::same_ignoring_case(header, "authorization") {
        text::cat2("Bearer ", credential)
    } else {
        credential.to_owned()
    };
    transport::drop_header(&mut request.headers, header);
    request.headers.push((header.to_owned(), value));
    Ok(())
}

/// Only an image can be attached as one.
pub fn check_attachment(attachment: &AttachmentRef) -> (result: Result<(), ImageError>)
    ensures
        result is Ok <==> "image/"@.is_prefix_of(attachment.media_type@),
        result matches Err(e) ==> e@ == error::invalid_view(
            "image attachment has a non-image media type"@,
        ),
{
    if text::starts_with(&attachment.media_type, "image/") {
        Ok(())
    } else {
        Err(error::invalid("image attachment has a non-image media type"))
    }
}

/// An attachment with its content put inline.
pub fn inlined(attachment: &AttachmentRef, bytes: &[u8]) -> (result: ImageInput)
    ensures
        result matches ImageInput::Base64 { media_type, data } && media_type@
            == attachment.media_type@ && data@ == encoding::base64_encoded(bytes@),
{
    ImageInput::Base64 {
        media_type: attachment.media_type.clone(),
        data: encoding::base64_encode(bytes),
    }
}

} // verus!
