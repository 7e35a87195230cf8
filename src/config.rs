//! The product configuration file, computed from the resolved authentication
//! class.

use vstd::prelude::*;
use vstd::string::*;
use crate::authentication::{
    AuthenticationClass, AuthenticationClassCaCert, AuthenticationClassLdap, AuthenticationClassProtocol,
    AuthenticationClassTls, AuthenticationClassTlsServerVerification, bind_credentials_mount_path,
    tls_mount_path,
};

verus! {

/// Name of the configuration file in the role group's ConfigMap.
pub const SUPERSET_CONFIG: &'static str = "superset_config.py";

pub open spec fn decimal_digit(d: nat) -> Seq<char> {
    if d == 0 {
        "0"@
    } else if d == 1 {
        "1"@
    } else if d == 2 {
        "2"@
    } else if d == 3 {
        "3"@
    } else if d == 4 {
        "4"@
    } else if d == 5 {
        "5"@
    } else if d == 6 {
        "6"@
    } else if d == 7 {
        "7"@
    } else if d == 8 {
        "8"@
    } else {
        "9"@
    }
}

/// The decimal notation of a natural number, without leading zeros.
pub open spec fn decimal(n: nat) -> Seq<char>
    decreases n,
{
    if n < 10 {
        decimal_digit(n)
    } else {
        decimal(n / 10) + decimal_digit(n % 10)
    }
}

fn digit_str(d: u16) -> (r: &'static str)
    requires
        d < 10,
    ensures
        r@ == decimal_digit(d as nat),
{
    if d == 0 {
        "0"
    } else if d == 1 {
        "1"
    } else if d == 2 {
        "2"
    } else if d == 3 {
        "3"
    } else if d == 4 {
        "4"
    } else if d == 5 {
        "5"
    } else if d == 6 {
        "6"
    } else if d == 7 {
        "7"
    } else if d == 8 {
        "8"
    } else {
        "9"
    }
}

/// The decimal notation of `n`.
pub fn decimal_string(n: u16) -> (r: String)
    ensures
        r@ == decimal(n as nat),
    decreases n,
{
    if n < 10 {
        String::from_str(digit_str(n))
    } else {
        let head = decimal_string(n / 10);
        head.concat(digit_str(n % 10))
    }
}

/// A Python assignment line `key = value`.
pub open spec fn assignment(key: Seq<char>, value: Seq<char>) -> Seq<char> {
    key + " = "@ + value + "\n"@
}

pub open spec fn quoted(v: Seq<char>) -> Seq<char> {
    "\""@ + v + "\""@
}

/// The reading of a file's contents, as a Python expression.
pub open spec fn file_contents(path: Seq<char>) -> Seq<char> {
    "open(\""@ + path + "\").read().strip()"@
}

/// The configuration that every cluster gets.
pub open spec fn base_config() -> Seq<char> {
    "import os\n"@ + "from superset.stats_logger import StatsdStatsLogger\n"@ + "STATS_LOGGER = StatsdStatsLogger(host=\"0.0.0.0\", port=9125)\n"@
}

pub open spec fn ldap_scheme(ldap: AuthenticationClassLdap) -> Seq<char> {
    if ldap.tls is Some {
        "ldaps"@
    } else {
        "ldap"@
    }
}

pub open spec fn ldap_server(ldap: AuthenticationClassLdap) -> Seq<char> {
    ldap_scheme(ldap) + "://"@ + ldap.hostname@ + ":"@ + decimal(ldap.port as nat)
}

pub open spec fn ldap_bind_lines(class_name: Seq<char>, ldap: AuthenticationClassLdap) -> Seq<char> {
    match ldap.bind_credentials {
        None => Seq::empty(),
        Some(_) => assignment(
            "AUTH_LDAP_BIND_USER"@,
            file_contents(bind_credentials_mount_path(class_name) + "/user"@),
        ) + assignment(
            "AUTH_LDAP_BIND_PASSWORD"@,
            file_contents(bind_credentials_mount_path(class_name) + "/password"@),
        ),
    }
}

/// Where the server's CA certificate is read from, if it is verified.
pub open spec fn ca_cert_file(class_name: Seq<char>, ca: AuthenticationClassCaCert) -> Seq<char> {
    match ca {
        AuthenticationClassCaCert::Path(p) => p@,
        _ => tls_mount_path(class_name) + "/ca.crt"@,
    }
}

pub open spec fn ldap_tls_lines(class_name: Seq<char>, ldap: AuthenticationClassLdap) -> Seq<char> {
    match ldap.tls {
        None => Seq::empty(),
        Some(AuthenticationClassTls::Insecure {}) => assignment("AUTH_LDAP_ALLOW_SELF_SIGNED"@, "True"@),
        Some(AuthenticationClassTls::ServerVerification(v)) => assignment(
            "AUTH_LDAP_TLS_CACERTFILE"@,
            quoted(ca_cert_file(class_name, v.server_ca_cert)),
        ),
    }
}

/// The authentication section for an LDAP backend.
pub open spec fn ldap_section(class_name: Seq<char>, ldap: AuthenticationClassLdap) -> Seq<char> {
    "from flask_appbuilder.security.manager import AUTH_LDAP\n"@ + assignment("AUTH_TYPE"@, "AUTH_LDAP"@)
        + assignment("AUTH_USER_REGISTRATION"@, "True"@) + assignment(
        "AUTH_LDAP_SERVER"@,
        quoted(ldap_server(ldap)),
    ) + assignment("AUTH_LDAP_SEARCH"@, quoted(ldap.search_base@)) + assignment(
        "AUTH_LDAP_UID_FIELD"@,
        quoted(ldap.uid_field@),
    ) + assignment("AUTH_LDAP_GROUP_FIELD"@, quoted(ldap.group_field@)) + assignment(
        "AUTH_LDAP_FIRSTNAME_FIELD"@,
        quoted(ldap.firstname_field@),
    ) + assignment("AUTH_LDAP_LASTNAME_FIELD"@, quoted(ldap.lastname_field@)) + assignment(
        "AUTH_LDAP_EMAIL_FIELD"@,
        quoted(ldap.email_field@),
    ) + ldap_bind_lines(class_name, ldap) + ldap_tls_lines(class_name, ldap)
}

/// The whole configuration file: the base, then the authentication section of
/// the class, if there is one.
pub open spec fn superset_config(authentication_class: Option<AuthenticationClass>) -> Seq<char> {
    match authentication_class {
        None => base_config(),
        Some(ac) => match ac.spec.protocol {
            AuthenticationClassProtocol::Ldap(ldap) => base_config() + ldap_section(ac.name@, ldap),
        },
    }
}

fn assignment_line(key: &str, value: &str) -> (r: String)
    ensures
        r@ == assignment(key@, value@),
{
    String::from_str(key).concat(" = ").concat(value).concat("\n")
}

fn quoted_string(v: &str) -> (r: String)
    ensures
        r@ == quoted(v@),
{
    String::from_str("\"").concat(v).concat("\"")
}

fn quoted_assignment(key: &str, value: &str) -> (r: String)
    ensures
        r@ == assignment(key@, quoted(value@)),
{
    let q = quoted_string(value);
    assignment_line(key, q.as_str())
}

fn file_contents_string(path: &str) -> (r: String)
    ensures
        r@ == file_contents(path@),
{
    String::from_str("open(\"").concat(path).concat("\").read().strip()")
}

fn ldap_section_string(class_name: &str, ldap: &AuthenticationClassLdap) -> (r: String)
    ensures
        r@ == ldap_section(class_name@, *ldap),
{
    let scheme = if ldap.tls.is_some() {
        "ldaps"
    } else {
        "ldap"
    };
    let port = decimal_string(ldap.port);
    let server = String::from_str(scheme).concat("://").concat(ldap.hostname.as_str()).concat(":").concat(
        port.as_str(),
    );
    let mut s = String::from_str("from flask_appbuilder.security.manager import AUTH_LDAP\n");
    s = s.concat(assignment_line("AUTH_TYPE", "AUTH_LDAP").as_str());
    s = s.concat(assignment_line("AUTH_USER_REGISTRATION", "True").as_str());
    s = s.concat(quoted_assignment("AUTH_LDAP_SERVER", server.as_str()).as_str());
    s = s.concat(quoted_assignment("AUTH_LDAP_SEARCH", ldap.search_base.as_str()).as_str());
    s = s.concat(quoted_assignment("AUTH_LDAP_UID_FIELD", ldap.uid_field.as_str()).as_str());
    s = s.concat(quoted_assignment("AUTH_LDAP_GROUP_FIELD", ldap.group_field.as_str()).as_str());
    s = s.concat(quoted_assignment("AUTH_LDAP_FIRSTNAME_FIELD", ldap.firstname_field.as_str()).as_str());
    s = s.concat(quoted_assignment("AUTH_LDAP_LASTNAME_FIELD", ldap.lastname_field.as_str()).as_str());
    s = s.concat(quoted_assignment("AUTH_LDAP_EMAIL_FIELD", ldap.email_field.as_str()).as_str());
    let bind_path = String::from_str("/secrets/").concat(class_name).concat("-bind-credentials");
    let bind = match &ldap.bind_credentials {
        None => String::new(),
        Some(_) => {
            let user = file_contents_string(bind_path.clone().concat("/user").as_str());
            let password = file_contents_string(bind_path.concat("/password").as_str());
            assignment_line("AUTH_LDAP_BIND_USER", user.as_str()).concat(
                assignment_line("AUTH_LDAP_BIND_PASSWORD", password.as_str()).as_str(),
            )
        },
    };
    assert(bind@ =~= ldap_bind_lines(class_name@, *ldap));
    s = s.concat(bind.as_str());
    let tls = match &ldap.tls {
        None => String::new(),
        Some(AuthenticationClassTls::Insecure {}) => assignment_line("AUTH_LDAP_ALLOW_SELF_SIGNED", "True"),
        Some(AuthenticationClassTls::ServerVerification(AuthenticationClassTlsServerVerification { server_ca_cert })) => {
            let file = match server_ca_cert {
                AuthenticationClassCaCert::Path(p) => p.clone(),
                _ => String::from_str("/certificates/").concat(class_name).concat("-tls-certificate").concat(
                    "/ca.crt",
                ),
            };
            quoted_assignment("AUTH_LDAP_TLS_CACERTFILE", file.as_str())
        },
    };
    assert(tls@ =~= ldap_tls_lines(class_name@, *ldap));
    s = s.concat(tls.as_str());
    s
}

/// The configuration file for the given authentication class, or the base
/// configuration with no authentication section when there is none.
pub fn compute_superset_config(authentication_class: &Option<AuthenticationClass>) -> (r: String)
    ensures
        r@ == superset_config(*authentication_class),
{
    let base = String::from_str("import os\n").concat("from superset.stats_logger import StatsdStatsLogger\n").concat("STATS_LOGGER = StatsdStatsLogger(host=\"0.0.0.0\", port=9125)\n");
    match authentication_class {
        None => base,
        Some(ac) => match &ac.spec.protocol {
            AuthenticationClassProtocol::Ldap(ldap) => {
                let section = ldap_section_string(ac.name.as_str(), ldap);
                base.concat(section.as_str())
            },
        },
    }
}

} // verus!
