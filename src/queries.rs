use vstd::prelude::*;
use crate::error::AppError;
use crate::text::{decimal, decimal_of, join_commas, comma_joined, texts_of, joined};

verus! {

/// Which fields of a chef profile a partial update sets.
pub struct ChefUpdateColumns {
    pub chef_name: bool,
    pub business_name: bool,
    pub bio: bool,
    pub cuisine_types: bool,
    pub location: bool,
    pub phone: bool,
    pub email: bool,
    pub website: bool,
    pub profile_image_url: bool,
    pub cover_image_url: bool,
    pub hourly_rate: bool,
    pub minimum_hours: bool,
    pub travel_radius: bool,
    pub is_active: bool,
}

/// Which fields of a menu a partial update sets.
pub struct MenuUpdateColumns {
    pub name: bool,
    pub description: bool,
    pub price_per_person: bool,
    pub minimum_guests: bool,
    pub cuisine_type: bool,
    pub dietary_options: bool,
    pub duration_hours: bool,
    pub is_active: bool,
}

pub open spec fn when(b: bool, s: Seq<char>) -> Seq<Seq<char>> {
    if b {
        seq![s]
    } else {
        Seq::empty()
    }
}

/// The columns an update of a chef profile sets, in their fixed order.
pub open spec fn chef_columns(c: ChefUpdateColumns) -> Seq<Seq<char>> {
    when(c.chef_name, "chef_name"@)
        + when(c.business_name, "business_name"@)
        + when(c.bio, "bio"@)
        + when(c.cuisine_types, "cuisine_types"@)
        + when(c.location, "location"@)
        + when(c.phone, "phone"@)
        + when(c.email, "email"@)
        + when(c.website, "website"@)
        + when(c.profile_image_url, "profile_image_url"@)
        + when(c.cover_image_url, "cover_image_url"@)
        + when(c.hourly_rate, "hourly_rate"@)
        + when(c.minimum_hours, "minimum_hours"@)
        + when(c.travel_radius, "travel_radius"@)
        + when(c.is_active, "is_active"@)
}

/// Each column set from the next numbered parameter, from `$1` on.
pub open spec fn numbered_assignments(cols: Seq<Seq<char>>) -> Seq<Seq<char>> {
    Seq::new(cols.len(), |k: int| cols[k] + " = $"@ + decimal_of((k + 1) as nat))
}

/// The statement that applies a partial update of `cols` to the row of
/// `table` whose `key` is bound to the last parameter, refreshing its update
/// time.
pub open spec fn update_sql(table: Seq<char>, cols: Seq<Seq<char>>, key: Seq<char>) -> Seq<char> {
    "UPDATE "@ + table + " SET "@ + comma_joined(numbered_assignments(cols).push("updated_at = NOW()"@))
        + " WHERE "@ + key + " = $"@ + decimal_of((cols.len() + 1) as nat) + " RETURNING *"@
}

/// The statement that applies a partial update to the profile of the user
/// bound to the last parameter.
pub open spec fn chef_update_sql(c: ChefUpdateColumns) -> Seq<char> {
    update_sql("chefs"@, chef_columns(c), "user_id"@)
}

/// The columns an update of a menu sets, in their fixed order.
pub open spec fn menu_columns(c: MenuUpdateColumns) -> Seq<Seq<char>> {
    when(c.name, "name"@)
        + when(c.description, "description"@)
        + when(c.price_per_person, "price_per_person"@)
        + when(c.minimum_guests, "minimum_guests"@)
        + when(c.cuisine_type, "cuisine_type"@)
        + when(c.dietary_options, "dietary_options"@)
        + when(c.duration_hours, "duration_hours"@)
        + when(c.is_active, "is_active"@)
}

/// The statement that applies a partial update to the menu bound to the last parameter.
pub open spec fn menu_update_sql(c: MenuUpdateColumns) -> Seq<char> {
    update_sql("menus"@, menu_columns(c), "id"@)
}

fn push_when(v: &mut Vec<String>, b: bool, s: &str)
    ensures
        texts_of(final(v)@) == texts_of(old(v)@) + when(b, s@),
        final(v)@.len() <= old(v)@.len() + 1,
{
    let ghost before = v@;
    if b {
        v.push(String::from_str(s));
        assert(texts_of(v@) =~= texts_of(before) + when(b, s@));
    } else {
        assert(texts_of(v@) =~= texts_of(before) + when(b, s@));
    }
}

/// The names of the columns an update of a chef profile sets.
#[verifier::rlimit(50)]
fn chef_column_names(c: &ChefUpdateColumns) -> (r: Vec<String>)
    ensures
        texts_of(r@) == chef_columns(*c),
        r@.len() <= 14,
{
    let mut cols: Vec<String> = Vec::new();
    assert(texts_of(cols@) =~= Seq::<Seq<char>>::empty());
    push_when(&mut cols, c.chef_name, "chef_name");
    push_when(&mut cols, c.business_name, "business_name");
    push_when(&mut cols, c.bio, "bio");
    push_when(&mut cols, c.cuisine_types, "cuisine_types");
    push_when(&mut cols, c.location, "location");
    push_when(&mut cols, c.phone, "phone");
    push_when(&mut cols, c.email, "email");
    push_when(&mut cols, c.website, "website");
    push_when(&mut cols, c.profile_image_url, "profile_image_url");
    push_when(&mut cols, c.cover_image_url, "cover_image_url");
    push_when(&mut cols, c.hourly_rate, "hourly_rate");
    push_when(&mut cols, c.minimum_hours, "minimum_hours");
    push_when(&mut cols, c.travel_radius, "travel_radius");
    push_when(&mut cols, c.is_active, "is_active");
    assert(texts_of(cols@) =~= chef_columns(*c));
    cols
}

/// The statement that applies a partial update of the columns `cols` to the
/// row of `table` whose `key` is bound to the last parameter.
pub fn update_statement(table: &str, cols: &Vec<String>, key: &str) -> (r: String)
    requires
        cols@.len() < 100,
    ensures
        r@ == update_sql(table@, texts_of(cols@), key@),
{
    let ghost cc = texts_of(cols@);
    let mut items: Vec<String> = Vec::new();
    assert(texts_of(items@) =~= Seq::<Seq<char>>::empty());
    let mut i: usize = 0;
    while i < cols.len()
        invariant
            i <= cols@.len() < 100,
            cc == texts_of(cols@),
            texts_of(items@) == numbered_assignments(cc).subrange(0, i as int),
        decreases cols.len() - i,
    {
        let ghost before = items@;
        let mut item = String::from_str(cols[i].as_str());
        item.append(" = $");
        let n = decimal(i + 1);
        item.append(n.as_str());
        items.push(item);
        proof {
            assert(cols@[i as int]@ == cc[i as int]);
            assert(item@ == cc[i as int] + " = $"@ + decimal_of((i + 1) as nat));
            assert(numbered_assignments(cc)[i as int] == item@);
            assert(texts_of(items@) =~= texts_of(before).push(item@));
            assert(texts_of(items@) =~= numbered_assignments(cc).subrange(0, i + 1));
        }
        i = i + 1;
    }
    let ghost assigned = items@;
    items.push(String::from_str("updated_at = NOW()"));
    assert(texts_of(items@) =~= numbered_assignments(cc).push("updated_at = NOW()"@)) by {
        assert(numbered_assignments(cc).subrange(0, cols@.len() as int) =~= numbered_assignments(cc));
        assert(texts_of(items@) =~= texts_of(assigned).push("updated_at = NOW()"@));
    }
    let set = join_commas(&items);
    let mut q = joined("UPDATE ", table);
    q.append(" SET ");
    q.append(set.as_str());
    q.append(" WHERE ");
    q.append(key);
    q.append(" = $");
    let last = decimal(cols.len() + 1);
    q.append(last.as_str());
    q.append(" RETURNING *");
    proof {
        reveal_strlit("UPDATE ");
    }
    assert(q@ =~= update_sql(table@, cc, key@));
    q
}

/// The statement for a partial update of a chef profile; an update that sets
/// nothing is refused.
pub fn update_chef_profile_query(c: &ChefUpdateColumns) -> (r: Result<String, AppError>)
    ensures
        chef_columns(*c).len() == 0 ==> (r matches Err(AppError::ValidationError(m)) && m@
            == "No fields to update"@),
        chef_columns(*c).len() > 0 ==> (r matches Ok(q) && q@ == chef_update_sql(*c)),
{
    let cols = chef_column_names(c);
    if cols.len() == 0 {
        return Err(AppError::validation("No fields to update"));
    }
    Ok(update_statement("chefs", &cols, "user_id"))
}

/// The names of the columns an update of a menu sets.
#[verifier::rlimit(50)]
fn menu_column_names(c: &MenuUpdateColumns) -> (r: Vec<String>)
    ensures
        texts_of(r@) == menu_columns(*c),
        r@.len() <= 8,
{
    let mut cols: Vec<String> = Vec::new();
    assert(texts_of(cols@) =~= Seq::<Seq<char>>::empty());
    push_when(&mut cols, c.name, "name");
    push_when(&mut cols, c.description, "description");
    push_when(&mut cols, c.price_per_person, "price_per_person");
    push_when(&mut cols, c.minimum_guests, "minimum_guests");
    push_when(&mut cols, c.cuisine_type, "cuisine_type");
    push_when(&mut cols, c.dietary_options, "dietary_options");
    push_when(&mut cols, c.duration_hours, "duration_hours");
    push_when(&mut cols, c.is_active, "is_active");
    assert(texts_of(cols@) =~= menu_columns(*c));
    cols
}

/// The statement for a partial update of a menu; it always refreshes the
/// update time.
pub fn update_menu_query(c: &MenuUpdateColumns) -> (r: String)
    ensures
        r@ == menu_update_sql(*c),
{
    let cols = menu_column_names(c);
    update_statement("menus", &cols, "id")
}

} // verus!
