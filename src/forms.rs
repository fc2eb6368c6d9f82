use vstd::prelude::*;
use crate::error::AppError;
use crate::ids::{parse_uuid, uuid_parsed};
use crate::text::{trim_of, trim, i32_parsed, parse_i32, comma_pieces, split_commas, texts_of, same_text, joined};

verus! {

/// The minimum hours of a new chef profile.
pub const DEFAULT_MINIMUM_HOURS: i32 = 2;

/// The minimum number of guests of a new menu.
pub const DEFAULT_MINIMUM_GUESTS: i32 = 2;

/// What `slug::slugify` makes of a text.
pub uninterp spec fn slug_of(s: Seq<char>) -> Seq<char>;

/// What `urlencoding::encode` makes of a text.
pub uninterp spec fn url_encoded_of(s: Seq<char>) -> Seq<char>;

/// What `urlencoding::decode` makes of a text, where it decodes.
pub uninterp spec fn url_decoded_of(s: Seq<char>) -> Option<Seq<char>>;

/// Relies on `slug::slugify`: the URL slug of a name.
#[verifier::external_body]
fn slugify(s: &str) -> (r: String)
    ensures
        r@ == slug_of(s@),
{
    slug::slugify(s)
}

/// Relies on `urlencoding::encode`: the percent-encoded form of a text.
#[verifier::external_body]
fn url_encode(s: &str) -> (r: String)
    ensures
        r@ == url_encoded_of(s@),
{
    urlencoding::encode(s).into_owned()
}

/// Relies on `urlencoding::decode`: the text a percent-encoded text stands
/// for, where that is valid UTF-8.
#[verifier::external_body]
fn url_decode(s: &str) -> (r: Option<String>)
    ensures
        r matches Some(t) ==> url_decoded_of(s@) == Some(t@),
        r is None ==> url_decoded_of(s@) is None,
{
    urlencoding::decode(s).ok().map(|t| t.into_owned())
}

/// The text of an optional string.
pub open spec fn opt_text(o: Option<String>) -> Option<Seq<char>> {
    match o {
        Some(s) => Some(s@),
        None => None,
    }
}

/// The text of an optional string slice.
pub open spec fn opt_str(o: Option<&str>) -> Option<Seq<char>> {
    match o {
        Some(s) => Some(s@),
        None => None,
    }
}

/// A form value trimmed, where something is left of it.
pub open spec fn non_blank_of(o: Option<Seq<char>>) -> Option<Seq<char>> {
    match o {
        Some(t) => if trim_of(t).len() > 0 {
            Some(trim_of(t))
        } else {
            None
        },
        None => None,
    }
}

/// The trimmed pieces that are not empty.
pub open spec fn kept_pieces(p: Seq<Seq<char>>) -> Seq<Seq<char>>
    decreases p.len(),
{
    if p.len() == 0 {
        Seq::empty()
    } else if trim_of(p.last()).len() > 0 {
        kept_pieces(p.drop_last()).push(trim_of(p.last()))
    } else {
        kept_pieces(p.drop_last())
    }
}

/// A comma-separated list: its trimmed non-empty entries, where there is one.
pub open spec fn list_of(o: Option<Seq<char>>) -> Option<Seq<Seq<char>>> {
    match o {
        Some(t) => if kept_pieces(comma_pieces(t)).len() > 0 {
            Some(kept_pieces(comma_pieces(t)))
        } else {
            None
        },
        None => None,
    }
}

/// A whole number read from a trimmed form value.
pub open spec fn number_of(o: Option<Seq<char>>) -> Option<i32> {
    match o {
        Some(t) => i32_parsed(trim_of(t)),
        None => None,
    }
}

/// A check box that is ticked.
pub open spec fn ticked(o: Option<Seq<char>>) -> bool {
    o matches Some(t) && (t == "on"@ || t == "true"@)
}

/// A form value, trimmed, where something is left of it.
pub fn non_blank(o: Option<&str>) -> (r: Option<String>)
    ensures
        opt_text(r) == non_blank_of(opt_str(o)),
{
    match o {
        Some(s) => {
            let t = trim(s);
            if t.unicode_len() > 0 {
                Some(String::from_str(t))
            } else {
                None
            }
        },
        None => None,
    }
}

/// The entries of a comma-separated list, trimmed, without the empty ones;
/// none where no entry is left.
pub fn comma_list(o: Option<&str>) -> (r: Option<Vec<String>>)
    ensures
        r matches Some(v) ==> list_of(opt_str(o)) == Some(texts_of(v@)),
        r is None ==> list_of(opt_str(o)) is None,
{
    match o {
        None => None,
        Some(s) => {
            let pieces = split_commas(s);
            let mut kept: Vec<String> = Vec::new();
            let mut i: usize = 0;
            while i < pieces.len()
                invariant
                    i <= pieces@.len(),
                    texts_of(pieces@) == comma_pieces(s@),
                    texts_of(kept@) == kept_pieces(texts_of(pieces@).subrange(0, i as int)),
                decreases pieces.len() - i,
            {
                proof {
                    let next = texts_of(pieces@).subrange(0, i + 1);
                    assert(next.drop_last() =~= texts_of(pieces@).subrange(0, i as int));
                    assert(next.last() == pieces@[i as int]@);
                }
                let t = trim(pieces[i].as_str());
                if t.unicode_len() > 0 {
                    let ghost prev = kept@;
                    let entry = String::from_str(t);
                    kept.push(entry);
                    proof {
                        assert(texts_of(kept@) =~= texts_of(prev).push(entry@));
                    }
                }
                i = i + 1;
            }
            assert(texts_of(pieces@).subrange(0, pieces@.len() as int) =~= texts_of(pieces@));
            if kept.len() > 0 {
                Some(kept)
            } else {
                None
            }
        },
    }
}

/// A whole number read from a trimmed form value.
pub fn form_number(o: Option<&str>) -> (r: Option<i32>)
    ensures
        r == number_of(opt_str(o)),
{
    match o {
        Some(s) => parse_i32(trim(s)),
        None => None,
    }
}

/// Whether a check box was ticked.
pub fn form_checked(o: Option<&str>) -> (r: bool)
    ensures
        r == ticked(opt_str(o)),
{
    match o {
        Some(s) => same_text(s, "on") || same_text(s, "true"),
        None => false,
    }
}

/// The URL slug of a chef's name.
pub fn profile_slug(chef_name: &str) -> (r: String)
    ensures
        r@ == slug_of(chef_name@),
{
    slugify(chef_name)
}

/// Where the chef dashboard is shown again with an error or a success message.
pub fn flash_location(is_error: bool, message: &str) -> (r: String)
    ensures
        r@ == "/chef-dashboard?"@ + (if is_error { "error="@ } else { "success="@ }) + url_encoded_of(
            message@,
        ),
{
    let encoded = url_encode(message);
    let head = if is_error {
        "/chef-dashboard?error="
    } else {
        "/chef-dashboard?success="
    };
    let r = joined(head, encoded.as_str());
    proof {
        reveal_strlit("/chef-dashboard?error=");
        reveal_strlit("/chef-dashboard?success=");
        reveal_strlit("/chef-dashboard?");
        reveal_strlit("error=");
        reveal_strlit("success=");
        if is_error {
            assert("/chef-dashboard?error="@ =~= "/chef-dashboard?"@ + "error="@);
        } else {
            assert("/chef-dashboard?success="@ =~= "/chef-dashboard?"@ + "success="@);
        }
    }
    r
}

/// The message carried in a query value: decoded, or as it came where it does not decode.
pub fn flash_text(raw: &str) -> (r: String)
    ensures
        url_decoded_of(raw@) matches Some(t) ==> r@ == t,
        url_decoded_of(raw@) is None ==> r@ == raw@,
{
    match url_decode(raw) {
        Some(t) => t,
        None => String::from_str(raw),
    }
}

/// The menu a menu item form names; it is required and must be a UUID.
pub fn read_menu_id(o: Option<&str>) -> (r: Result<u128, AppError>)
    ensures
        o is None ==> (r matches Err(AppError::ValidationError(m)) && m@ == "Menu ID is required"@),
        o matches Some(t) ==> (uuid_parsed(t@) matches Some(u) ==> r == Ok::<u128, AppError>(u)),
        o matches Some(t) ==> (uuid_parsed(t@) is None ==> (r matches Err(AppError::ValidationError(m))
            && m@ == "Invalid menu ID"@)),
{
    match o {
        None => Err(AppError::validation("Menu ID is required")),
        Some(t) => match parse_uuid(t) {
            Some(u) => Ok(u),
            None => Err(AppError::validation("Invalid menu ID")),
        },
    }
}

/// A new chef profile read from the dashboard form.
pub struct ChefProfileForm {
    pub chef_name: String,
    pub business_name: Option<String>,
    pub bio: Option<String>,
    pub location: Option<String>,
    pub cuisine_types: Option<Vec<String>>,
    pub slug: String,
    pub minimum_hours: i32,
}

/// A new menu read from the dashboard form.
pub struct MenuForm {
    pub name: String,
    pub description: Option<String>,
    pub minimum_guests: i32,
    pub cuisine_type: Option<String>,
}

/// A new menu item read from the dashboard form.
pub struct MenuItemForm {
    pub name: String,
    pub description: Option<String>,
    pub course_type: Option<String>,
    pub quantity: Option<i32>,
    pub is_featured: bool,
    pub display_order: i32,
}

/// Reads the chef profile form; the chef's name is required.
pub fn read_chef_form(chef_name: Option<&str>, business_name: Option<&str>, bio: Option<&str>, location: Option<&str>, cuisine_types: Option<&str>) -> (r: Result<ChefProfileForm, String>)
    ensures
        non_blank_of(opt_str(chef_name)) is None ==> (r matches Err(m) && m@ == "Chef name is required"@),
        non_blank_of(opt_str(chef_name)) matches Some(n) ==> (r matches Ok(f) && {
            &&& f.chef_name@ == n
            &&& opt_text(f.business_name) == non_blank_of(opt_str(business_name))
            &&& opt_text(f.bio) == non_blank_of(opt_str(bio))
            &&& opt_text(f.location) == non_blank_of(opt_str(location))
            &&& (f.cuisine_types matches Some(v) ==> list_of(opt_str(cuisine_types)) == Some(texts_of(v@)))
            &&& (f.cuisine_types is None ==> list_of(opt_str(cuisine_types)) is None)
            &&& f.slug@ == slug_of(n)
            &&& f.minimum_hours == DEFAULT_MINIMUM_HOURS
        }),
{
    match non_blank(chef_name) {
        None => Err(String::from_str("Chef name is required")),
        Some(name) => {
            let slug = profile_slug(name.as_str());
            Ok(ChefProfileForm {
                chef_name: name,
                business_name: non_blank(business_name),
                bio: non_blank(bio),
                location: non_blank(location),
                cuisine_types: comma_list(cuisine_types),
                slug,
                minimum_hours: DEFAULT_MINIMUM_HOURS,
            })
        },
    }
}

/// Reads the menu form; the menu's name is required, and the minimum number
/// of guests is two unless a number is given.
pub fn read_menu_form(name: Option<&str>, description: Option<&str>, minimum_guests: Option<&str>, cuisine_type: Option<&str>) -> (r: Result<MenuForm, String>)
    ensures
        non_blank_of(opt_str(name)) is None ==> (r matches Err(m) && m@ == "Menu name is required"@),
        non_blank_of(opt_str(name)) matches Some(n) ==> (r matches Ok(f) && {
            &&& f.name@ == n
            &&& opt_text(f.description) == non_blank_of(opt_str(description))
            &&& f.minimum_guests == (match number_of(opt_str(minimum_guests)) {
                Some(g) => g,
                None => DEFAULT_MINIMUM_GUESTS,
            })
            &&& opt_text(f.cuisine_type) == non_blank_of(opt_str(cuisine_type))
        }),
{
    match non_blank(name) {
        None => Err(String::from_str("Menu name is required")),
        Some(n) => {
            let guests = match form_number(minimum_guests) {
                Some(g) => g,
                None => DEFAULT_MINIMUM_GUESTS,
            };
            Ok(MenuForm {
                name: n,
                description: non_blank(description),
                minimum_guests: guests,
                cuisine_type: non_blank(cuisine_type),
            })
        },
    }
}

/// Reads the menu item form; the item's name is required, a quantity counts
/// only when it is positive, and new items come first in display order.
pub fn read_menu_item_form(name: Option<&str>, description: Option<&str>, course_type: Option<&str>, quantity: Option<&str>, is_featured: Option<&str>) -> (r: Result<MenuItemForm, String>)
    ensures
        non_blank_of(opt_str(name)) is None ==> (r matches Err(m) && m@ == "Item name is required"@),
        non_blank_of(opt_str(name)) matches Some(n) ==> (r matches Ok(f) && {
            &&& f.name@ == n
            &&& opt_text(f.description) == non_blank_of(opt_str(description))
            &&& opt_text(f.course_type) == non_blank_of(opt_str(course_type))
            &&& f.quantity == (match number_of(opt_str(quantity)) {
                Some(q) => if q > 0 {
                    Some(q)
                } else {
                    None
                },
                None => None,
            })
            &&& f.is_featured == ticked(opt_str(is_featured))
            &&& f.display_order == 0
        }),
{
    match non_blank(name) {
        None => Err(String::from_str("Item name is required")),
        Some(n) => {
            let q = match form_number(quantity) {
                Some(q) => if q > 0 {
                    Some(q)
                } else {
                    None
                },
                None => None,
            };
            Ok(MenuItemForm {
                name: n,
                description: non_blank(description),
                course_type: non_blank(course_type),
                quantity: q,
                is_featured: form_checked(is_featured),
                display_order: 0,
            })
        },
    }
}

} // verus!
