//! The page record that a response carries, and the fragments that the
//! renderer hands back for it.
use crate::json::{json_entries, JsonMap};
use crate::req_type::Component;
use crate::text::{join_strings, join_with, views_of};
use serde_json::Value;
use vstd::prelude::*;

verus! {

/// A pre-rendered page: the elements for the document head and the markup
/// of the body.
#[derive(Debug, Clone, PartialEq, Eq)]
pub struct InertiaSSRPage {
    head: Vec<String>,
    body: String,
}

impl InertiaSSRPage {
    /// The head elements, in order.
    pub closed spec fn head(&self) -> Seq<Seq<char>> {
        views_of(self.head@)
    }

    /// The body markup.
    pub closed spec fn body(&self) -> Seq<char> {
        self.body@
    }

    /// * `head` - the html elements to put into the head of the root template.
    /// * `body` - the html to put into the body container of the root template.
    pub fn new(head: Vec<String>, body: String) -> (page: Self)
        ensures
            page.head() == views_of(head@),
            page.body() == body@,
    {
        InertiaSSRPage { head, body }
    }

    /// The head elements, in order.
    pub fn get_head_elements(&self) -> (head: &Vec<String>)
        ensures
            views_of(head@) == self.head(),
    {
        &self.head
    }

    /// The head elements, one per line.
    pub fn get_head(&self) -> (head: String)
        ensures
            head@ == join_with(self.head(), "\n"@),
    {
        join_strings(&self.head, "\n")
    }

    pub fn get_body(&self) -> (body: &String)
        ensures
            body@ == self.body(),
    {
        &self.body
    }
}

/// The page that a response carries: the component to show, its resolved
/// properties, the url of the request and the version of the assets.
#[derive(Debug, Eq, PartialEq, Clone)]
pub struct InertiaPage {
    component: Component,
    props: JsonMap,
    url: String,
    version: Option<String>,
}

impl InertiaPage {
    /// The name of the component.
    pub closed spec fn component(&self) -> Seq<char> {
        self.component.0@
    }

    /// The resolved properties.
    pub closed spec fn props(&self) -> Map<Seq<char>, Value> {
        json_entries(self.props)
    }

    /// The url of the request.
    pub closed spec fn url(&self) -> Seq<char> {
        self.url@
    }

    /// The version of the assets, if one is known.
    pub closed spec fn version(&self) -> Option<Seq<char>> {
        match self.version {
            Some(v) => Some(v@),
            None => None,
        }
    }

    /// * `component` - the name of the page component.
    /// * `url`       - the url of the request.
    /// * `version`   - the current version of the assets.
    /// * `props`     - the resolved properties of the page.
    pub fn new(component: Component, url: String, version: Option<String>, props: JsonMap) -> (page:
        Self)
        ensures
            page.component() == component.0@,
            page.url() == url@,
            page.version() == (match version {
                Some(v) => Some(v@),
                None => None,
            }),
            page.props() == json_entries(props),
    {
        InertiaPage { component, url, props, version }
    }

    pub fn get_component(&self) -> (component: &Component)
        ensures
            component.0@ == self.component(),
    {
        &self.component
    }

    pub fn get_props(&self) -> (props: &JsonMap)
        ensures
            json_entries(*props) == self.props(),
    {
        &self.props
    }

    pub fn get_url(&self) -> (url: &String)
        ensures
            url@ == self.url(),
    {
        &self.url
    }

    pub fn get_version(&self) -> (version: &Option<String>)
        ensures
            self.version() == (match *version {
                Some(v) => Some(v@),
                None => None,
            }),
    {
        &self.version
    }
}

} // verus!
