//! External services, such as STUN and TURN servers, that a server tells its clients of.
use vstd::prelude::*;
use xmpp_parsers::Element;

use crate::element::{attr, children, is_named, tree_of, trees_of, Tree};
use crate::text::{copy_opt, opt};

verus! {

/// One external service.
pub struct Service {
    pub type_: String,
    pub name: Option<String>,
    pub host: String,
    pub port: Option<String>,
    pub transport: Option<String>,
    pub username: Option<String>,
    pub password: Option<String>,
}

pub struct ServiceView {
    pub type_: Seq<char>,
    pub name: Option<Seq<char>>,
    pub host: Seq<char>,
    pub port: Option<Seq<char>>,
    pub transport: Option<Seq<char>>,
    pub username: Option<Seq<char>>,
    pub password: Option<Seq<char>>,
}

impl View for Service {
    type V = ServiceView;

    open spec fn view(&self) -> ServiceView {
        ServiceView {
            type_: self.type_@,
            name: opt(self.name),
            host: self.host@,
            port: opt(self.port),
            transport: opt(self.transport),
            username: opt(self.username),
            password: opt(self.password),
        }
    }
}

/// Several services, seen through their views.
pub open spec fn service_views(services: Seq<Service>) -> Seq<ServiceView> {
    services.map_values(|s: Service| s@)
}

/// The service that an element describes. It has to name a type and a host.
pub open spec fn service_of(t: Tree) -> Option<ServiceView> {
    if t.is("service"@, "urn:xmpp:extdisco:2"@) && t.attr("type"@) is Some && t.attr(
        "host"@,
    ) is Some {
        Some(
            ServiceView {
                type_: t.attr("type"@)->0,
                name: t.attr("name"@),
                host: t.attr("host"@)->0,
                port: t.attr("port"@),
                transport: t.attr("transport"@),
                username: t.attr("username"@),
                password: t.attr("password"@),
            },
        )
    } else {
        None
    }
}

/// The services that an element lists: every child has to describe one.
pub open spec fn services_of(t: Tree) -> Option<Seq<ServiceView>> {
    if t.is("services"@, "urn:xmpp:extdisco:2"@) && (forall|i: int|
        0 <= i < t.elements().len() ==> service_of(#[trigger] t.elements()[i]) is Some) {
        Some(t.elements().map_values(|s: Tree| service_of(s)->0))
    } else {
        None
    }
}

fn read_service(element: &Element) -> (r: Option<Service>)
    ensures
        (match r {
            Some(s) => service_of(tree_of(*element)) == Some(s@),
            None => service_of(tree_of(*element)) is None,
        }),
{
    if !is_named(element, "service", "urn:xmpp:extdisco:2") {
        return None;
    }
    match (attr(element, "type"), attr(element, "host")) {
        (Some(type_), Some(host)) => Some(
            Service {
                type_,
                name: attr(element, "name"),
                host,
                port: attr(element, "port"),
                transport: attr(element, "transport"),
                username: attr(element, "username"),
                password: attr(element, "password"),
            },
        ),
        _ => None,
    }
}

/// Reads the services that an element lists.
pub fn read_services(element: &Element) -> (r: Option<Vec<Service>>)
    ensures
        (match r {
            Some(s) => services_of(tree_of(*element)) == Some(service_views(s@)),
            None => services_of(tree_of(*element)) is None,
        }),
{
    if !is_named(element, "services", "urn:xmpp:extdisco:2") {
        return None;
    }
    let elements = children(element);
    let ghost all = tree_of(*element).elements();
    let mut services: Vec<Service> = Vec::new();
    for i in 0..elements.len()
        invariant
            all == tree_of(*element).elements(),
            all == trees_of(elements@),
            services@.len() == i,
            forall|j: int|
                0 <= j < i ==> service_of(#[trigger] all[j]) == Some(services@[j]@),
    {
        assert(all[i as int] == tree_of(elements@[i as int]));
        match read_service(&elements[i]) {
            Some(service) => services.push(service),
            None => {
                return None;
            },
        }
    }
    assert(service_views(services@) =~= all.map_values(|s: Tree| service_of(s)->0));
    Some(services)
}

fn copy_service(service: &Service) -> (r: Service)
    ensures
        r@ == service@,
{
    Service {
        type_: service.type_.clone(),
        name: copy_opt(&service.name),
        host: service.host.clone(),
        port: copy_opt(&service.port),
        transport: copy_opt(&service.transport),
        username: copy_opt(&service.username),
        password: copy_opt(&service.password),
    }
}

/// Copies of several services.
pub fn copy_services(services: &Vec<Service>) -> (r: Vec<Service>)
    ensures
        service_views(r@) == service_views(services@),
{
    let mut r: Vec<Service> = Vec::new();
    for i in 0..services.len()
        invariant
            r@.len() == i,
            forall|j: int| 0 <= j < i ==> (#[trigger] r@[j])@ == services@[j]@,
    {
        r.push(copy_service(&services[i]));
    }
    assert(service_views(r@) =~= service_views(services@));
    r
}

} // verus!
