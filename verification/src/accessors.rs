//! Typed access to the parts of the router data the connectors need, each
//! either present or reported as a missing field under the name the router
//! uses for it.

use vstd::prelude::*;

use crate::domain::{
    is_missing_field, opt_view, AddressDetails, ConnectorError, PaymentsAuthorizeRouterData,
    PhoneDetails,
};
use crate::outside::push_char;
use crate::text::{owned, push_text, trim, trim_spec, trim_start_char, trim_start_char_spec};

verus! {

/// An exec result that is a text value, against its expected form: `Ok` of
/// the same text, or a missing-field error naming the same field.
pub open spec fn text_result_matches(
    r: Result<String, ConnectorError>,
    s: Result<Seq<char>, Seq<char>>,
) -> bool {
    match (r, s) {
        (Ok(a), Ok(b)) => a@ == b,
        (Err(e), Err(name)) => is_missing_field(e, name),
        _ => false,
    }
}

/// A present text value, or the named field reported missing.
pub open spec fn required(o: Option<String>, name: Seq<char>) -> Result<Seq<char>, Seq<char>> {
    match o {
        Some(s) => Ok(s@),
        None => Err(name),
    }
}

/// The subscriber number of a phone.
pub open spec fn phone_number_spec(p: PhoneDetails) -> Result<Seq<char>, Seq<char>> {
    required(p.number, "billing.phone.number"@)
}

/// The country calling code of a phone, as given (e.g. `"+27"`).
pub open spec fn phone_country_code_spec(p: PhoneDetails) -> Result<Seq<char>, Seq<char>> {
    required(p.country_code, "billing.phone.country_code"@)
}

/// The country calling code of a phone without its leading `+` signs.
pub open spec fn phone_country_digits_spec(p: PhoneDetails) -> Result<Seq<char>, Seq<char>> {
    match phone_country_code_spec(p) {
        Ok(cc) => Ok(trim_start_char_spec(cc, '+')),
        Err(n) => Err(n),
    }
}

/// Country calling code followed by the subscriber number.
pub open spec fn phone_with_country_code_spec(p: PhoneDetails) -> Result<Seq<char>, Seq<char>> {
    match phone_number_spec(p) {
        Err(n) => Err(n),
        Ok(number) => match phone_country_code_spec(p) {
            Err(n) => Err(n),
            Ok(cc) => Ok(cc + number),
        },
    }
}

impl PhoneDetails {
    /// The subscriber number.
    pub fn get_number(&self) -> (r: Result<String, ConnectorError>)
        ensures
            text_result_matches(r, phone_number_spec(*self)),
    {
        match &self.number {
            Some(n) => Ok(n.clone()),
            None => Err(ConnectorError::MissingRequiredField { field_name: "billing.phone.number" }),
        }
    }

    /// The country calling code, as given.
    pub fn get_country_code(&self) -> (r: Result<String, ConnectorError>)
        ensures
            text_result_matches(r, phone_country_code_spec(*self)),
    {
        match &self.country_code {
            Some(cc) => Ok(cc.clone()),
            None => Err(
                ConnectorError::MissingRequiredField { field_name: "billing.phone.country_code" },
            ),
        }
    }

    /// The country calling code without its leading `+`.
    pub fn extract_country_code(&self) -> (r: Result<String, ConnectorError>)
        ensures
            text_result_matches(r, phone_country_digits_spec(*self)),
    {
        match self.get_country_code() {
            Ok(cc) => Ok(owned(trim_start_char(cc.as_str(), '+'))),
            Err(e) => Err(e),
        }
    }

    /// Country calling code followed by the subscriber number.
    pub fn get_number_with_country_code(&self) -> (r: Result<String, ConnectorError>)
        ensures
            text_result_matches(r, phone_with_country_code_spec(*self)),
    {
        let number = match self.get_number() {
            Ok(n) => n,
            Err(e) => return Err(e),
        };
        let mut with_code = match self.get_country_code() {
            Ok(cc) => cc,
            Err(e) => return Err(e),
        };
        push_text(&mut with_code, number.as_str());
        Ok(with_code)
    }
}

/// The full name of an address: first and last name (empty when absent)
/// joined by a space, with surrounding whitespace trimmed.
pub open spec fn full_name_spec(a: AddressDetails) -> Result<Seq<char>, Seq<char>> {
    match a.first_name {
        None => Err("address.first_name"@),
        Some(first) => Ok(trim_spec(first@ + seq![' '] + text_or_empty(a.last_name))),
    }
}

/// The text of an optional string, or the empty string.
pub open spec fn text_or_empty(o: Option<String>) -> Seq<char> {
    match o {
        Some(s) => s@,
        None => Seq::empty(),
    }
}

impl AddressDetails {
    /// The first name.
    pub fn get_first_name(&self) -> (r: Result<String, ConnectorError>)
        ensures
            text_result_matches(r, required(self.first_name, "address.first_name"@)),
    {
        match &self.first_name {
            Some(n) => Ok(n.clone()),
            None => Err(ConnectorError::MissingRequiredField { field_name: "address.first_name" }),
        }
    }

    /// First and last name joined by a space and trimmed; the last name
    /// counts as empty when absent.
    pub fn get_full_name(&self) -> (r: Result<String, ConnectorError>)
        ensures
            text_result_matches(r, full_name_spec(*self)),
    {
        let mut name = match self.get_first_name() {
            Ok(n) => n,
            Err(e) => return Err(e),
        };
        let ghost first = name@;
        push_char(&mut name, ' ');
        match &self.last_name {
            Some(last) => push_text(&mut name, last.as_str()),
            None => {},
        }
        assert(name@ =~= first + seq![' '] + text_or_empty(self.last_name));
        Ok(owned(trim(name.as_str())))
    }

    /// The city.
    pub fn get_city(&self) -> (r: Result<String, ConnectorError>)
        ensures
            text_result_matches(r, required(self.city, "address.city"@)),
    {
        match &self.city {
            Some(c) => Ok(c.clone()),
            None => Err(ConnectorError::MissingRequiredField { field_name: "address.city" }),
        }
    }

    /// The first address line.
    pub fn get_line1(&self) -> (r: Result<String, ConnectorError>)
        ensures
            text_result_matches(r, required(self.line1, "address.line1"@)),
    {
        match &self.line1 {
            Some(l) => Ok(l.clone()),
            None => Err(ConnectorError::MissingRequiredField { field_name: "address.line1" }),
        }
    }
}

/// The billing address details, when a billing block with an address is given.
pub open spec fn billing_details(d: PaymentsAuthorizeRouterData) -> Option<AddressDetails> {
    match d.billing {
        Some(b) => b.address,
        None => None,
    }
}

/// The shipping address details, when a shipping block with an address is given.
pub open spec fn shipping_details(d: PaymentsAuthorizeRouterData) -> Option<AddressDetails> {
    match d.shipping {
        Some(s) => s.address,
        None => None,
    }
}

/// The billing phone, when given.
pub open spec fn billing_phone(d: PaymentsAuthorizeRouterData) -> Option<PhoneDetails> {
    match d.billing {
        Some(b) => b.phone,
        None => None,
    }
}

/// The billing email, when given.
pub open spec fn billing_email(d: PaymentsAuthorizeRouterData) -> Option<String> {
    match d.billing {
        Some(b) => b.email,
        None => None,
    }
}

/// A field of an optional address.
pub open spec fn address_field(
    a: Option<AddressDetails>,
    f: spec_fn(AddressDetails) -> Option<String>,
) -> Option<Seq<char>> {
    match a {
        Some(details) => opt_view(f(details)),
        None => None,
    }
}

/// The billing phone number with its country code.
pub open spec fn billing_phone_number_spec(d: PaymentsAuthorizeRouterData) -> Result<
    Seq<char>,
    Seq<char>,
> {
    match billing_phone(d) {
        None => Err("payment_method_data.billing.phone"@),
        Some(p) => phone_with_country_code_spec(p),
    }
}

fn clone_opt(o: &Option<String>) -> (r: Option<String>)
    ensures
        opt_view(r) == opt_view(*o),
{
    match o {
        Some(s) => Some(s.clone()),
        None => None,
    }
}

impl PaymentsAuthorizeRouterData {
    /// The billing address details.
    pub fn get_optional_billing_details(&self) -> (r: Option<&AddressDetails>)
        ensures
            match billing_details(*self) {
                Some(a) => r == Some(&a),
                None => r is None,
            },
    {
        match &self.billing {
            Some(b) => b.address.as_ref(),
            None => None,
        }
    }

    /// The shipping address details.
    pub fn get_optional_shipping_details(&self) -> (r: Option<&AddressDetails>)
        ensures
            match shipping_details(*self) {
                Some(a) => r == Some(&a),
                None => r is None,
            },
    {
        match &self.shipping {
            Some(s) => s.address.as_ref(),
            None => None,
        }
    }

    /// The billing phone, or `billing.phone` reported missing.
    pub fn get_billing_phone(&self) -> (r: Result<&PhoneDetails, ConnectorError>)
        ensures
            match billing_phone(*self) {
                Some(p) => r == Ok::<&PhoneDetails, ConnectorError>(&p),
                None => r matches Err(e) && is_missing_field(e, "billing.phone"@),
            },
    {
        let phone = match &self.billing {
            Some(b) => b.phone.as_ref(),
            None => None,
        };
        match phone {
            Some(p) => Ok(p),
            None => Err(ConnectorError::MissingRequiredField { field_name: "billing.phone" }),
        }
    }

    /// The billing phone number with its country code, or
    /// `payment_method_data.billing.phone` reported missing.
    pub fn get_billing_phone_number(&self) -> (r: Result<String, ConnectorError>)
        ensures
            text_result_matches(r, billing_phone_number_spec(*self)),
    {
        match &self.billing {
            Some(b) => match &b.phone {
                Some(p) => p.get_number_with_country_code(),
                None => Err(ConnectorError::MissingRequiredField { field_name: "payment_method_data.billing.phone" }),
            },
            None => Err(ConnectorError::MissingRequiredField { field_name: "payment_method_data.billing.phone" }),
        }
    }

    /// The billing email, or `payment_method_data.billing.email` reported missing.
    pub fn get_billing_email(&self) -> (r: Result<String, ConnectorError>)
        ensures
            text_result_matches(
                r,
                required(billing_email(*self), "payment_method_data.billing.email"@),
            ),
    {
        match self.get_optional_billing_email() {
            Some(e) => Ok(e),
            None => Err(
                ConnectorError::MissingRequiredField {
                    field_name: "payment_method_data.billing.email",
                },
            ),
        }
    }

    /// The billing email, when given.
    pub fn get_optional_billing_email(&self) -> (r: Option<String>)
        ensures
            opt_view(r) == opt_view(billing_email(*self)),
    {
        match &self.billing {
            Some(b) => clone_opt(&b.email),
            None => None,
        }
    }

    /// The shopper's email from the request, or `email` reported missing.
    pub fn get_email(&self) -> (r: Result<String, ConnectorError>)
        ensures
            text_result_matches(r, required(self.email, "email"@)),
    {
        match &self.email {
            Some(e) => Ok(e.clone()),
            None => Err(ConnectorError::MissingRequiredField { field_name: "email" }),
        }
    }
}

/// The parts of an address a request forwards, each optional.
pub struct AddressParts {
    pub line1: Option<String>,
    pub line2: Option<String>,
    pub city: Option<String>,
    pub state: Option<String>,
    pub zip: Option<String>,
    pub country: Option<String>,
}

/// The parts of `a` (all absent when there is no address).
pub open spec fn address_parts_match(r: AddressParts, a: Option<AddressDetails>) -> bool {
    &&& opt_view(r.line1) == address_field(a, |d: AddressDetails| d.line1)
    &&& opt_view(r.line2) == address_field(a, |d: AddressDetails| d.line2)
    &&& opt_view(r.city) == address_field(a, |d: AddressDetails| d.city)
    &&& opt_view(r.state) == address_field(a, |d: AddressDetails| d.state)
    &&& opt_view(r.zip) == address_field(a, |d: AddressDetails| d.zip)
    &&& opt_view(r.country) == address_field(a, |d: AddressDetails| d.country)
}

/// Copies out the parts of an optional address.
pub fn address_parts(a: Option<&AddressDetails>) -> (r: AddressParts)
    ensures
        address_parts_match(
            r,
            match a {
                Some(d) => Some(*d),
                None => None,
            },
        ),
{
    match a {
        Some(d) => AddressParts {
            line1: clone_opt(&d.line1),
            line2: clone_opt(&d.line2),
            city: clone_opt(&d.city),
            state: clone_opt(&d.state),
            zip: clone_opt(&d.zip),
            country: clone_opt(&d.country),
        },
        None => AddressParts {
            line1: None,
            line2: None,
            city: None,
            state: None,
            zip: None,
            country: None,
        },
    }
}

} // verus!
