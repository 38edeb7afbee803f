use rocket::http::{ContentType, Header, Status};
use rocket::Response;
use site_core::headers::{
    content_security_policy, fixed_header_list, InjectHeaders, CSP_HEADER, CSP_NORMAL, CSP_SVG,
};

const NORMAL: &str = "default-src 'self'; frame-ancestors 'self'; img-src 'self'; frame-src https://www.google.com https://www.youtube.com";
const SVG: &str = "default-src 'self'; style-src 'self' 'unsafe-inline'; script-src 'none'";

fn values<'a>(response: &'a Response<'_>, name: &str) -> Vec<&'a str> {
    response.headers().get(name).collect()
}

#[test]
fn policies_have_their_exact_text() {
    assert_eq!(CSP_NORMAL, NORMAL);
    assert_eq!(CSP_SVG, SVG);
    assert_eq!(CSP_HEADER, "content-security-policy");
    assert_eq!(content_security_policy(true), SVG);
    assert_eq!(content_security_policy(false), NORMAL);
}

#[test]
fn fixed_header_list_names_the_four_headers() {
    let list = fixed_header_list();
    assert_eq!(list.len(), 4);
    assert_eq!(list[0], ("x-xss-protection", "1; mode=block"));
    assert_eq!(list[1], ("strict-transport-security", "max-age=63072000"));
    assert_eq!(list[2], ("x-content-type-options", "nosniff"));
    assert_eq!(list[3], ("referrer-policy", "no-referrer, strict-origin-when-cross-origin"));
}

#[test]
fn injector_is_registered_under_its_name() {
    assert_eq!(InjectHeaders.name(), "HTTP headers injector");
}

#[test]
fn empty_response_gets_every_fixed_header() {
    let mut response = Response::new();
    InjectHeaders.on_response(&mut response);
    assert_eq!(values(&response, "x-xss-protection"), vec!["1; mode=block"]);
    assert_eq!(values(&response, "strict-transport-security"), vec!["max-age=63072000"]);
    assert_eq!(values(&response, "x-content-type-options"), vec!["nosniff"]);
    assert_eq!(
        values(&response, "referrer-policy"),
        vec!["no-referrer, strict-origin-when-cross-origin"]
    );
    assert_eq!(values(&response, "content-security-policy"), vec![NORMAL]);
    assert_eq!(response.headers().len(), 5);
}

#[test]
fn existing_values_are_overwritten_whatever_their_case() {
    let mut response = Response::new();
    response.adjoin_header(Header::new("X-XSS-Protection", "0"));
    response.adjoin_header(Header::new("x-xss-protection", "1"));
    response.set_header(Header::new("Referrer-Policy", "unsafe-url"));
    response.set_header(Header::new("Content-Security-Policy", "default-src *"));
    InjectHeaders.on_response(&mut response);
    assert_eq!(values(&response, "x-xss-protection"), vec!["1; mode=block"]);
    assert_eq!(
        values(&response, "referrer-policy"),
        vec!["no-referrer, strict-origin-when-cross-origin"]
    );
    assert_eq!(values(&response, "content-security-policy"), vec![NORMAL]);
    assert_eq!(response.headers().len(), 5);
}

#[test]
fn error_responses_get_the_headers_too() {
    for status in [Status::NotFound, Status::InternalServerError] {
        let mut response = Response::new();
        response.set_status(status);
        response.set_header(ContentType::HTML);
        InjectHeaders.on_response(&mut response);
        assert_eq!(response.status(), status);
        assert_eq!(values(&response, "x-xss-protection"), vec!["1; mode=block"]);
        assert_eq!(values(&response, "strict-transport-security"), vec!["max-age=63072000"]);
        assert_eq!(values(&response, "x-content-type-options"), vec!["nosniff"]);
        assert_eq!(
            values(&response, "referrer-policy"),
            vec!["no-referrer, strict-origin-when-cross-origin"]
        );
        assert_eq!(values(&response, "content-security-policy"), vec![NORMAL]);
    }
}

#[test]
fn svg_response_gets_the_svg_policy() {
    let mut response = Response::new();
    response.set_header(ContentType::SVG);
    InjectHeaders.on_response(&mut response);
    assert_eq!(values(&response, "content-security-policy"), vec![SVG]);
    assert_eq!(values(&response, "content-type"), vec!["image/svg+xml"]);
}

#[test]
fn svg_is_told_whatever_case_and_parameters() {
    let mut response = Response::new();
    response.set_header(Header::new("content-type", "IMAGE/SVG+XML; charset=utf-8"));
    InjectHeaders.on_response(&mut response);
    assert_eq!(values(&response, "content-security-policy"), vec![SVG]);
}

#[test]
fn other_content_types_get_the_normal_policy() {
    for content_type in [ContentType::HTML, ContentType::PNG, ContentType::XML, ContentType::CSS] {
        let mut response = Response::new();
        response.set_header(content_type);
        InjectHeaders.on_response(&mut response);
        assert_eq!(values(&response, "content-security-policy"), vec![NORMAL]);
    }
}

#[test]
fn malformed_content_type_gets_the_normal_policy() {
    let mut response = Response::new();
    response.set_header(Header::new("Content-Type", "image//svg+xml"));
    InjectHeaders.on_response(&mut response);
    assert_eq!(values(&response, "content-security-policy"), vec![NORMAL]);
}

#[test]
fn only_the_first_content_type_value_counts() {
    let mut response = Response::new();
    response.adjoin_header(Header::new("Content-Type", "text/html"));
    response.adjoin_header(Header::new("Content-Type", "image/svg+xml"));
    InjectHeaders.on_response(&mut response);
    assert_eq!(values(&response, "content-security-policy"), vec![NORMAL]);
    assert_eq!(values(&response, "content-type"), vec!["text/html", "image/svg+xml"]);
}

#[test]
fn status_and_other_headers_stay() {
    let mut response = Response::new();
    response.set_status(Status::ImATeapot);
    response.adjoin_header(Header::new("Cache-Control", "max-age=3600"));
    response.adjoin_header(Header::new("X-Custom", "one"));
    response.adjoin_header(Header::new("X-Custom", "two"));
    InjectHeaders.on_response(&mut response);
    assert_eq!(response.status(), Status::ImATeapot);
    assert_eq!(values(&response, "cache-control"), vec!["max-age=3600"]);
    assert_eq!(values(&response, "x-custom"), vec!["one", "two"]);
    assert_eq!(response.headers().len(), 8);
}

#[test]
fn body_stays() {
    let mut response = Response::new();
    let text = "<svg xmlns=\"http://www.w3.org/2000/svg\"/>";
    response.set_header(ContentType::SVG);
    response.set_sized_body(text.len(), std::io::Cursor::new(text));
    InjectHeaders.on_response(&mut response);
    let runtime = rocket::tokio::runtime::Builder::new_current_thread().build().unwrap();
    let body = runtime.block_on(response.body_mut().to_string()).unwrap();
    assert_eq!(body, text);
}

#[test]
fn injecting_twice_changes_nothing_more() {
    let mut response = Response::new();
    response.set_header(ContentType::SVG);
    InjectHeaders.on_response(&mut response);
    let once: Vec<String> = response.headers().iter().map(|h| h.to_string()).collect();
    InjectHeaders.on_response(&mut response);
    let twice: Vec<String> = response.headers().iter().map(|h| h.to_string()).collect();
    assert_eq!(once, twice);
}
